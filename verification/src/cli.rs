//! From a process's arguments to what it prints and how it ends.

use vstd::prelude::*;
use vstd::string::*;
use crate::address::{address_on_network, address_script, generate_p2wsh_address, timelock_address};
use crate::command::{
    asks_for_help, command, command_of, texts, Command, CommandView, Error, ErrorView, Parsed,
    ParsedView,
};
use crate::encoding::{consensus_encoding, lower_hex};
use crate::network::{display_network, network_name, NETWORK};
use crate::transaction::{lemma_spend_fits, spend, spend_transaction};

verus! {

/// How a run ends.
#[derive(Debug, PartialEq, Eq)]
pub enum Outcome {
    /// Help was asked for: the usage goes to standard output.
    Help,
    /// The command was carried out: the line goes to standard output.
    Done(String),
    /// Nothing was carried out: the usage goes to standard output where the
    /// arguments have the shape of no command, and otherwise the error's
    /// message goes to standard error.
    Failed(Error),
}

/// What an outcome holds.
pub enum OutcomeView {
    Help,
    Done(Seq<char>),
    Failed(ErrorView),
}

impl View for Outcome {
    type V = OutcomeView;

    open spec fn view(&self) -> OutcomeView {
        match *self {
            Outcome::Help => OutcomeView::Help,
            Outcome::Done(line) => OutcomeView::Done(line@),
            Outcome::Failed(error) => OutcomeView::Failed(error@),
        }
    }
}

/// The line that a command prints, or why it prints none. An address command
/// prints the address for its timelock. A spend command prints the spending
/// transaction in hexadecimal, if its address belongs to the network.
pub open spec fn execution(command: CommandView) -> Result<Seq<char>, ErrorView> {
    match command {
        CommandView::Address { timelock } => Ok(timelock_address(timelock, NETWORK)),
        CommandView::Spend { outpoint, timelock, spend_amount, address } => {
            if address_on_network(address, NETWORK) {
                Ok(
                    lower_hex(
                        consensus_encoding(
                            spend_transaction(
                                outpoint,
                                timelock,
                                spend_amount,
                                address_script(address),
                            ),
                        ),
                    ),
                )
            } else {
                Err(ErrorView::WrongNetwork(NETWORK))
            }
        },
    }
}

/// How a run on the arguments `args` ends.
pub open spec fn outcome_of(args: Seq<Seq<char>>) -> OutcomeView {
    match command_of(args) {
        Err(error) => OutcomeView::Failed(error),
        Ok(ParsedView::Help) => OutcomeView::Help,
        Ok(ParsedView::Command(command)) => match execution(command) {
            Ok(line) => OutcomeView::Done(line),
            Err(error) => OutcomeView::Failed(error),
        },
    }
}

/// The status with which a run ends: zero after help and after a command
/// that was carried out, one otherwise.
pub open spec fn status_of(outcome: OutcomeView) -> int {
    match outcome {
        OutcomeView::Failed(_) => 1,
        _ => 0,
    }
}

/// The usage, for a program called `bin`.
pub open spec fn usage_text(bin: Seq<char>) -> Seq<char> {
    "Usage:\n    - "@ + bin
        + " address <timelock>  Generate a P2WSH address with the specified timelock\n    - "@
        + bin
        + " spend <outpoint> <sat_amount_to_spend> <address>  Spend from the specified outpoint\n    - "@
        + bin + " -help or "@ + bin
        + " -h  Show this help message\n\nThis binary is a helper to build & spend \"anyone can spend after timelock\" coins.\nIt's not intended to be used in real-world conditions but as a helper for experimenting\nwith the possibility to extend Bitcoin's relative locktime by adding a new flag to the nSequence field.\n"@
}

/// The line that tells of an error; for arguments in the shape of no command
/// there is none, and the usage takes its place.
pub open spec fn message_text(error: ErrorView) -> Option<Seq<char>> {
    match error {
        ErrorView::Usage => None,
        ErrorView::InvalidOutpoint(text) => Some("Invalid outpoint "@ + text),
        ErrorView::InvalidTimelock(text) => Some("Invalid timelock value "@ + text),
        ErrorView::InvalidAmount(text) => Some("Invalid amount value "@ + text),
        ErrorView::InvalidAddress(text) => Some("Invalid address "@ + text),
        ErrorView::WrongNetwork(network) => Some(
            "Address not valid for network "@ + network_name(network),
        ),
    }
}

/// Carries out a command: gives the line to print, or the error.
pub fn execute(command: Command) -> (line: Result<String, Error>)
    ensures
        match line {
            Ok(text) => execution(command@) == Ok::<Seq<char>, ErrorView>(text@),
            Err(error) => execution(command@) == Err::<Seq<char>, ErrorView>(error@),
        },
{
    match command {
        Command::Address { timelock } => Ok(generate_p2wsh_address(timelock, NETWORK)),
        Command::Spend { outpoint, timelock, spend_amount, address } => {
            if !address.is_valid_for_network(NETWORK) {
                return Err(Error::WrongNetwork(NETWORK));
            }
            proof {
                lemma_spend_fits(outpoint, timelock, spend_amount, address_script(address@));
            }
            let tx = spend(outpoint, timelock, spend_amount, address);
            Ok(tx.to_hex())
        },
    }
}

/// Runs on a process's arguments, the program's name first.
pub fn run(args: Vec<String>) -> (outcome: Outcome)
    ensures
        outcome@ == outcome_of(texts(args@)),
{
    match command(args) {
        Err(error) => Outcome::Failed(error),
        Ok(Parsed::Help) => Outcome::Help,
        Ok(Parsed::Command(command)) => match execute(command) {
            Ok(line) => Outcome::Done(line),
            Err(error) => Outcome::Failed(error),
        },
    }
}

impl Outcome {
    /// The status with which the process ends.
    pub fn status(&self) -> (status: i32)
        ensures
            status == status_of(self@),
    {
        match self {
            Outcome::Failed(_) => 1,
            _ => 0,
        }
    }
}

impl Error {
    /// The line for standard error, where the error has one.
    pub fn message(&self) -> (message: Option<String>)
        ensures
            match message {
                Some(text) => message_text(self@) == Some(text@),
                None => message_text(self@) is None,
            },
    {
        match self {
            Error::Usage => None,
            Error::InvalidOutpoint(text) => Some(
                String::from_str("Invalid outpoint ").concat(text.as_str()),
            ),
            Error::InvalidTimelock(text) => Some(
                String::from_str("Invalid timelock value ").concat(text.as_str()),
            ),
            Error::InvalidAmount(text) => Some(
                String::from_str("Invalid amount value ").concat(text.as_str()),
            ),
            Error::InvalidAddress(text) => Some(
                String::from_str("Invalid address ").concat(text.as_str()),
            ),
            Error::WrongNetwork(network) => Some(
                String::from_str("Address not valid for network ").concat(
                    display_network(*network).as_str(),
                ),
            ),
        }
    }
}

/// The usage, for a program called `bin`.
pub fn usage(bin: &str) -> (text: String)
    ensures
        text@ == usage_text(bin@),
{
    let mut text = String::from_str("Usage:\n    - ");
    text.append(bin);
    text.append(
        " address <timelock>  Generate a P2WSH address with the specified timelock\n    - ",
    );
    text.append(bin);
    text.append(
        " spend <outpoint> <sat_amount_to_spend> <address>  Spend from the specified outpoint\n    - ",
    );
    text.append(bin);
    text.append(" -help or ");
    text.append(bin);
    text.append(
        " -h  Show this help message\n\nThis binary is a helper to build & spend \"anyone can spend after timelock\" coins.\nIt's not intended to be used in real-world conditions but as a helper for experimenting\nwith the possibility to extend Bitcoin's relative locktime by adding a new flag to the nSequence field.\n",
    );
    text
}

/// Help is given whatever else the arguments hold, and a run without
/// arguments ends on the usage: in neither case is any field read as a
/// number, an outpoint or an address.
pub proof fn lemma_help_and_bare_runs(args: Seq<Seq<char>>)
    ensures
        asks_for_help(args) ==> outcome_of(args) == OutcomeView::Help,
        args.len() <= 1 ==> outcome_of(args) == OutcomeView::Failed(ErrorView::Usage),
{
}

/// A spend command whose address does not belong to the network is refused,
/// and no transaction is printed.
pub proof fn lemma_wrong_network_refused(command: CommandView)
    requires
        command matches CommandView::Spend { address, .. } && !address_on_network(address, NETWORK),
    ensures
        execution(command) == Err::<Seq<char>, ErrorView>(ErrorView::WrongNetwork(NETWORK)),
{
}

} // verus!
