//! What the user is told after an account is set up: how it was funded, or how to top it up.

use vstd::prelude::*;
use crate::text::{concat2, opt_view, str_eq};

verus! {

/// The command that tops up account `name`: the default account needs no `--account` flag.
pub open spec fn topup_command_for(name: Seq<char>) -> Seq<char> {
    if name == "default"@ {
        "pay topup"@
    } else {
        "pay topup --account "@ + name
    }
}

/// The command that tops up account `name`.
pub fn topup_retry_command(name: &str) -> (res: String)
    ensures
        res@ == topup_command_for(name@),
{
    if str_eq(name, "default") {
        String::from_str("pay topup")
    } else {
        concat2("pay topup --account ", name)
    }
}

/// The body of the notice that account `name` must be topped up before paying.
pub open spec fn topup_body_for(name: Seq<char>) -> Seq<char> {
    "A top-up is required before making paid requests.\n$ "@ + topup_command_for(name)
}

/// The body of the notice that account `name` must be topped up before paying.
pub fn topup_required_body(name: &str) -> (res: String)
    ensures
        res@ == topup_body_for(name@),
{
    let command = topup_retry_command(name);
    concat2("A top-up is required before making paid requests.\n$ ", command.as_str())
}

/// Which part of the funds received is shown.
#[derive(Debug, Clone, PartialEq, Eq)]
pub enum ReceivedDisplay {
    /// The USDC token at this index, as a dollar amount.
    Usdc(usize),
    /// The token at this index, with this symbol.
    Token(usize, String),
    /// The SOL received.
    Sol,
    /// Nothing worth showing.
    Nothing,
}

/// Whether a token symbol is USDC.
pub open spec fn is_usdc(symbol: Option<String>) -> bool {
    symbol matches Some(s) && s@ == "USDC"@
}

/// The label of a token: its symbol, or "tokens" when it has none.
pub open spec fn token_label(symbol: Option<String>) -> Seq<char> {
    match symbol {
        Some(s) => s@,
        None => "tokens"@,
    }
}

/// The part of the funds shown: the first USDC token; else the first token; else the SOL when
/// any arrived; else nothing. (`symbols` are the tokens' symbols in order.)
pub fn format_received_choice(symbols: &Vec<Option<String>>, sol_lamports: u64) -> (res: ReceivedDisplay)
    ensures
        match res {
            ReceivedDisplay::Usdc(i) => i < symbols@.len() && is_usdc(symbols@[i as int])
                && forall|j: int| 0 <= j < i ==> !is_usdc(#[trigger] symbols@[j]),
            ReceivedDisplay::Token(i, label) => i == 0 && symbols@.len() > 0 && label@ == token_label(
                symbols@[0],
            ) && forall|j: int| 0 <= j < symbols@.len() ==> !is_usdc(#[trigger] symbols@[j]),
            ReceivedDisplay::Sol => symbols@.len() == 0 && sol_lamports > 0,
            ReceivedDisplay::Nothing => symbols@.len() == 0 && sol_lamports == 0,
        },
{
    let mut i: usize = 0;
    while i < symbols.len()
        invariant
            i <= symbols@.len(),
            forall|j: int| 0 <= j < i ==> !is_usdc(#[trigger] symbols@[j]),
        decreases symbols@.len() - i,
    {
        match &symbols[i] {
            Some(s) => {
                if str_eq(s.as_str(), "USDC") {
                    return ReceivedDisplay::Usdc(i);
                }
            },
            None => {},
        }
        i = i + 1;
    }
    if symbols.len() > 0 {
        let label = match &symbols[0] {
            Some(s) => s.clone(),
            None => String::from_str("tokens"),
        };
        return ReceivedDisplay::Token(0, label);
    }
    if sol_lamports > 0 {
        ReceivedDisplay::Sol
    } else {
        ReceivedDisplay::Nothing
    }
}

/// What follows "Account secured in ..." once setup is done.
#[derive(Debug, Clone, PartialEq, Eq)]
pub enum NextSteps {
    /// The account was funded during setup; the amount is shown when there is one.
    Funded { amount: Option<String> },
    /// The account still needs a top-up; the notice has this body.
    TopupRequired { body: String },
}

/// The steps shown after setting up account `name`, given the formatted amount received
/// during setup (`None` when nothing was received).
pub fn next_steps(name: &str, received_amount: Option<String>) -> (res: NextSteps)
    ensures
        match received_amount {
            Some(a) => res matches NextSteps::Funded { amount } && (if a@.len() == 0 {
                amount is None
            } else {
                amount matches Some(m) && m@ == a@
            }),
            None => res matches NextSteps::TopupRequired { body } && body@ == topup_body_for(name@),
        },
{
    match received_amount {
        Some(a) => {
            if a.as_str().is_empty() {
                NextSteps::Funded { amount: None }
            } else {
                NextSteps::Funded { amount: Some(a) }
            }
        },
        None => NextSteps::TopupRequired { body: topup_required_body(name) },
    }
}

/// One line of the summary printed once an account is set up.
#[derive(Debug, Clone, PartialEq, Eq)]
pub enum SummaryLine {
    /// An empty line.
    Blank,
    /// "✔ Account secured in" the named backend.
    Secured(String),
    /// "✔ Account funded with" the formatted amount.
    Funded(String),
    /// "Ready to go. Time to make HTTP pay for itself."
    Ready,
    /// A command to try next.
    Command(String),
    /// The warning notice "Top-up required", with this body.
    TopupNotice(String),
}

/// The abstract content of a `SummaryLine`.
pub enum SummaryItem {
    Blank,
    Secured(Seq<char>),
    Funded(Seq<char>),
    Ready,
    Command(Seq<char>),
    TopupNotice(Seq<char>),
}

impl View for SummaryLine {
    type V = SummaryItem;

    open spec fn view(&self) -> SummaryItem {
        match self {
            SummaryLine::Blank => SummaryItem::Blank,
            SummaryLine::Secured(b) => SummaryItem::Secured(b@),
            SummaryLine::Funded(a) => SummaryItem::Funded(a@),
            SummaryLine::Ready => SummaryItem::Ready,
            SummaryLine::Command(c) => SummaryItem::Command(c@),
            SummaryLine::TopupNotice(n) => SummaryItem::TopupNotice(n@),
        }
    }
}

/// The command suggested once the account is funded.
pub open spec fn next_command() -> Seq<char> {
    "$ pay codex"@
}

/// The summary after account `name` was secured in `backend_name`, given the formatted amount
/// received during setup (`None` when nothing was received), line by line: a blank line and
/// the secured line; then, when funds arrived, the funded line (unless the amount is empty),
/// the ready line and the command to try; otherwise the top-up notice; and a closing blank line.
pub open spec fn summary_items(name: Seq<char>, backend_name: Seq<char>, received: Option<Seq<char>>) -> Seq<SummaryItem> {
    let middle = match received {
        Some(a) => (if a.len() == 0 {
            Seq::<SummaryItem>::empty()
        } else {
            seq![SummaryItem::Funded(a)]
        }) + seq![SummaryItem::Blank, SummaryItem::Ready, SummaryItem::Blank, SummaryItem::Command(next_command())],
        None => seq![SummaryItem::Blank, SummaryItem::TopupNotice(topup_body_for(name))],
    };
    seq![SummaryItem::Blank, SummaryItem::Secured(backend_name)] + middle + seq![SummaryItem::Blank]
}

/// The lines of the summary shown after account `name` was secured in `backend_name`, given
/// the formatted amount received during setup (`None` when nothing was received).
pub fn summary_lines(name: &str, backend_name: &str, received_amount: Option<String>) -> (res: Vec<SummaryLine>)
    ensures
        res@.map_values(|l: SummaryLine| l@) == summary_items(name@, backend_name@, opt_view(received_amount)),
{
    let ghost received = opt_view(received_amount);
    let mut lines: Vec<SummaryLine> = Vec::new();
    lines.push(SummaryLine::Blank);
    lines.push(SummaryLine::Secured(String::from_str(backend_name)));
    match next_steps(name, received_amount) {
        NextSteps::Funded { amount } => {
            match amount {
                Some(a) => lines.push(SummaryLine::Funded(a)),
                None => {},
            }
            lines.push(SummaryLine::Blank);
            lines.push(SummaryLine::Ready);
            lines.push(SummaryLine::Blank);
            lines.push(SummaryLine::Command(String::from_str("$ pay codex")));
        },
        NextSteps::TopupRequired { body } => {
            lines.push(SummaryLine::Blank);
            lines.push(SummaryLine::TopupNotice(body));
        },
    }
    lines.push(SummaryLine::Blank);
    assert(lines@.map_values(|l: SummaryLine| l@) =~= summary_items(name@, backend_name@, received));
    lines
}

/// The default account is topped up with `pay topup`; any other account names itself with
/// `--account`.
pub proof fn lemma_topup_command_names_account(name: Seq<char>)
    ensures
        topup_command_for("default"@) == "pay topup"@,
        name != "default"@ ==> topup_command_for(name) == "pay topup --account "@ + name,
{
}

/// The summary always opens with a blank line and the keystore the account is secured in, and
/// closes with a blank line. After funding it shows the ready line and the command to try, and
/// no top-up notice; the amount is shown exactly when there is one. Without funds it shows the
/// top-up notice for the account, and no ready line.
pub proof fn lemma_summary_shape(name: Seq<char>, backend_name: Seq<char>, received: Option<Seq<char>>)
    ensures
        summary_items(name, backend_name, received)[0] == SummaryItem::Blank,
        summary_items(name, backend_name, received)[1] == SummaryItem::Secured(backend_name),
        summary_items(name, backend_name, received).last() == SummaryItem::Blank,
        received is None ==> summary_items(name, backend_name, received).contains(
            SummaryItem::TopupNotice("A top-up is required before making paid requests.\n$ "@ + topup_command_for(name)),
        ) && !summary_items(name, backend_name, received).contains(SummaryItem::Ready),
        received matches Some(a) ==> summary_items(name, backend_name, received).contains(SummaryItem::Ready)
            && summary_items(name, backend_name, received).contains(SummaryItem::Command("$ pay codex"@))
            && (forall|i: int| 0 <= i < summary_items(name, backend_name, received).len()
                ==> !(#[trigger] summary_items(name, backend_name, received)[i] is TopupNotice))
            && (summary_items(name, backend_name, received).contains(SummaryItem::Funded(a)) <==> a.len() > 0),
{
    let items = summary_items(name, backend_name, received);
    match received {
        None => {
            assert(items[3] == SummaryItem::TopupNotice(topup_body_for(name)));
            assert(items.len() == 5);
            assert forall|i: int| 0 <= i < items.len() implies items[i] != SummaryItem::Ready by {}
        },
        Some(a) => {
            if a.len() == 0 {
                assert(items.len() == 7);
                assert(items[3] == SummaryItem::Ready);
                assert(items[5] == SummaryItem::Command("$ pay codex"@));
                assert forall|i: int| 0 <= i < items.len() implies items[i] != SummaryItem::Funded(a) by {}
            } else {
                assert(items.len() == 8);
                assert(items[2] == SummaryItem::Funded(a));
                assert(items[4] == SummaryItem::Ready);
                assert(items[6] == SummaryItem::Command("$ pay codex"@));
            }
        },
    }
}

} // verus!
