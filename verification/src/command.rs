//! The command line: what it asks for, and what is wrong with it when it asks
//! for nothing that can be done.

use vstd::prelude::*;
use crate::address::{address_decodes, Address};
use crate::decimal::{decimal_u16, decimal_u32, parse_u16, parse_u32};
use crate::encoding::{outpoint_from_text, outpoint_of_text};
use crate::network::Network;
use crate::transaction::OutPoint;

verus! {

/// What the command line asks for.
#[derive(Debug, PartialEq, Eq)]
pub enum Command {
    /// The address for a timelock.
    Address { timelock: u16 },
    /// The transaction that spends an output held by a timelock.
    Spend { outpoint: OutPoint, timelock: u16, spend_amount: u64, address: Address },
}

/// Why a command line cannot be carried out.
#[derive(Debug, PartialEq, Eq)]
pub enum Error {
    /// The arguments have the shape of no command.
    Usage,
    /// The outpoint is not a transaction id, a colon and an index.
    InvalidOutpoint(String),
    /// The timelock is not a 16-bit number.
    InvalidTimelock(String),
    /// The amount is not a 32-bit number of satoshis.
    InvalidAmount(String),
    /// The address is not the encoding of an address.
    InvalidAddress(String),
    /// The address does not belong to the network.
    WrongNetwork(Network),
}

/// What a command holds.
pub enum CommandView {
    Address { timelock: u16 },
    Spend { outpoint: OutPoint, timelock: u16, spend_amount: u64, address: Seq<char> },
}

/// What an error holds.
pub enum ErrorView {
    Usage,
    InvalidOutpoint(Seq<char>),
    InvalidTimelock(Seq<char>),
    InvalidAmount(Seq<char>),
    InvalidAddress(Seq<char>),
    WrongNetwork(Network),
}

impl View for Command {
    type V = CommandView;

    open spec fn view(&self) -> CommandView {
        match *self {
            Command::Address { timelock } => CommandView::Address { timelock },
            Command::Spend { outpoint, timelock, spend_amount, address } => CommandView::Spend {
                outpoint,
                timelock,
                spend_amount,
                address: address@,
            },
        }
    }
}

impl View for Error {
    type V = ErrorView;

    open spec fn view(&self) -> ErrorView {
        match *self {
            Error::Usage => ErrorView::Usage,
            Error::InvalidOutpoint(text) => ErrorView::InvalidOutpoint(text@),
            Error::InvalidTimelock(text) => ErrorView::InvalidTimelock(text@),
            Error::InvalidAmount(text) => ErrorView::InvalidAmount(text@),
            Error::InvalidAddress(text) => ErrorView::InvalidAddress(text@),
            Error::WrongNetwork(network) => ErrorView::WrongNetwork(network),
        }
    }
}

/// What a command line that can be answered asks for.
#[derive(Debug, PartialEq, Eq)]
pub enum Parsed {
    /// The usage.
    Help,
    /// A command to carry out.
    Command(Command),
}

/// What a parsed command line holds.
pub enum ParsedView {
    Help,
    Command(CommandView),
}

impl View for Parsed {
    type V = ParsedView;

    open spec fn view(&self) -> ParsedView {
        match *self {
            Parsed::Help => ParsedView::Help,
            Parsed::Command(command) => ParsedView::Command(command@),
        }
    }
}

/// A command that was read, or the error, by what each holds.
pub open spec fn command_view(read: Result<Command, Error>) -> Result<CommandView, ErrorView> {
    match read {
        Ok(command) => Ok(command@),
        Err(error) => Err(error@),
    }
}

/// A parsed command line, or the error, by what each holds.
pub open spec fn parsed_view(parsed: Result<Parsed, Error>) -> Result<ParsedView, ErrorView> {
    match parsed {
        Ok(parsed) => Ok(parsed@),
        Err(error) => Err(error@),
    }
}

/// A command among the parsed command lines.
pub open spec fn as_parsed(read: Result<CommandView, ErrorView>) -> Result<ParsedView, ErrorView> {
    match read {
        Ok(command) => Ok(ParsedView::Command(command)),
        Err(error) => Err(error),
    }
}

/// The arguments as texts.
pub open spec fn texts(args: Seq<String>) -> Seq<Seq<char>> {
    args.map_values(|arg: String| arg@)
}

/// `text` is one of the two words that ask for help.
pub open spec fn is_help_word(text: Seq<char>) -> bool {
    text == "-help"@ || text == "-h"@
}

/// The arguments ask for help: the first after the program's name is `-help`
/// or `-h`, whatever else the arguments hold.
pub open spec fn asks_for_help(args: Seq<Seq<char>>) -> bool {
    args.len() > 1 && is_help_word(args[1])
}

/// What the arguments `address <timelock>` ask for.
pub open spec fn address_command(args: Seq<Seq<char>>) -> Result<CommandView, ErrorView> {
    if args.len() != 2 || args[0] != "address"@ {
        Err(ErrorView::Usage)
    } else {
        match decimal_u16(args[1]) {
            Some(timelock) => Ok(CommandView::Address { timelock }),
            None => Err(ErrorView::InvalidTimelock(args[1])),
        }
    }
}

/// What the arguments `spend <outpoint> <timelock> <amount> <address>` ask
/// for. The fields are read from left to right, and the first that cannot be
/// read is the error.
pub open spec fn spend_command(args: Seq<Seq<char>>) -> Result<CommandView, ErrorView> {
    if args.len() != 5 || args[0] != "spend"@ {
        Err(ErrorView::Usage)
    } else if outpoint_of_text(args[1]) is None {
        Err(ErrorView::InvalidOutpoint(args[1]))
    } else if decimal_u16(args[2]) is None {
        Err(ErrorView::InvalidTimelock(args[2]))
    } else if decimal_u32(args[3]) is None {
        Err(ErrorView::InvalidAmount(args[3]))
    } else if !address_decodes(args[4]) {
        Err(ErrorView::InvalidAddress(args[4]))
    } else {
        Ok(
            CommandView::Spend {
                outpoint: outpoint_of_text(args[1])->0,
                timelock: decimal_u16(args[2])->0,
                spend_amount: decimal_u32(args[3])->0 as u64,
                address: args[4],
            },
        )
    }
}

/// What a process's arguments ask for. The first is the program's name. A
/// request for help is answered with the usage before anything else is read.
/// Otherwise two more arguments make an `address` command, five more a `spend`
/// command, and any other number makes none.
pub open spec fn command_of(args: Seq<Seq<char>>) -> Result<ParsedView, ErrorView> {
    if asks_for_help(args) {
        Ok(ParsedView::Help)
    } else if args.len() == 3 {
        as_parsed(address_command(args.subrange(1, 3)))
    } else if args.len() == 6 {
        as_parsed(spend_command(args.subrange(1, 6)))
    } else {
        Err(ErrorView::Usage)
    }
}

/// Whether `text` is the word `word`.
fn is_word(text: &String, word: &str) -> (same: bool)
    ensures
        same == (text@ == word@),
{
    let word = word.to_owned();
    *text == word
}

/// Whether `text` is one of the two words that ask for help.
fn help_word(text: &String) -> (help: bool)
    ensures
        help == is_help_word(text@),
{
    let long = "-help".to_owned();
    let short = "-h".to_owned();
    *text == long || *text == short
}

/// Whether the arguments ask for help.
pub fn is_help_request(args: &Vec<String>) -> (help: bool)
    ensures
        help == asks_for_help(texts(args@)),
{
    args.len() > 1 && help_word(&args[1])
}

/// Reads the arguments of an `address` command, the program's name left out.
pub fn parse_address_command(args: Vec<String>) -> (read: Result<Command, Error>)
    ensures
        command_view(read) == address_command(texts(args@)),
{
    if args.len() != 2 || !is_word(&args[0], "address") {
        return Err(Error::Usage);
    }
    match parse_u16(args[1].as_str()) {
        Some(timelock) => Ok(Command::Address { timelock }),
        None => Err(Error::InvalidTimelock(args[1].clone())),
    }
}

/// Reads the arguments of a `spend` command, the program's name left out.
pub fn parse_spend_command(args: Vec<String>) -> (read: Result<Command, Error>)
    ensures
        command_view(read) == spend_command(texts(args@)),
{
    if args.len() != 5 || !is_word(&args[0], "spend") {
        return Err(Error::Usage);
    }
    let outpoint = match outpoint_from_text(args[1].as_str()) {
        Some(outpoint) => outpoint,
        None => {
            return Err(Error::InvalidOutpoint(args[1].clone()));
        },
    };
    let timelock = match parse_u16(args[2].as_str()) {
        Some(timelock) => timelock,
        None => {
            return Err(Error::InvalidTimelock(args[2].clone()));
        },
    };
    let spend_amount = match parse_u32(args[3].as_str()) {
        Some(sats) => sats as u64,
        None => {
            return Err(Error::InvalidAmount(args[3].clone()));
        },
    };
    let address = match Address::parse(args[4].as_str()) {
        Some(address) => address,
        None => {
            return Err(Error::InvalidAddress(args[4].clone()));
        },
    };
    Ok(Command::Spend { outpoint, timelock, spend_amount, address })
}

/// Reads a process's arguments, the program's name first.
pub fn command(args: Vec<String>) -> (parsed: Result<Parsed, Error>)
    ensures
        parsed_view(parsed) == command_of(texts(args@)),
{
    if is_help_request(&args) {
        return Ok(Parsed::Help);
    }
    let mut args = args;
    if args.len() == 0 {
        return Err(Error::Usage);
    }
    let ghost all = texts(args@);
    args.remove(0);
    assert(texts(args@) =~= all.subrange(1, all.len() as int));
    let read = match args.len() {
        2 => parse_address_command(args),
        5 => parse_spend_command(args),
        _ => Err(Error::Usage),
    };
    match read {
        Ok(command) => Ok(Parsed::Command(command)),
        Err(error) => Err(error),
    }
}

/// What the arguments ask for does not depend on the program's name.
pub proof fn lemma_program_name_ignored(a: Seq<Seq<char>>, b: Seq<Seq<char>>)
    requires
        a.len() == b.len(),
        a.len() >= 1,
        a.subrange(1, a.len() as int) == b.subrange(1, b.len() as int),
    ensures
        command_of(a) == command_of(b),
{
    let rest = a.subrange(1, a.len() as int);
    if a.len() > 1 {
        assert(a[1] == rest[0] && b[1] == b.subrange(1, b.len() as int)[0]);
    }
}

/// A word that asks for help is the keyword of no command: where a command
/// is read from it, it is arguments in the shape of none.
pub proof fn lemma_help_word_is_no_keyword(args: Seq<Seq<char>>)
    requires
        args.len() > 0,
        is_help_word(args[0]),
    ensures
        address_command(args) == Err::<CommandView, ErrorView>(ErrorView::Usage),
        spend_command(args) == Err::<CommandView, ErrorView>(ErrorView::Usage),
{
    reveal_strlit("-help");
    reveal_strlit("-h");
    reveal_strlit("address");
    reveal_strlit("spend");
    assert("-help"@.len() == 5 && "-h"@.len() == 2 && "address"@.len() == 7);
    assert("-h"@[0] == '-' && "-help"@[0] == '-' && "spend"@[0] == 's');
}

} // verus!
