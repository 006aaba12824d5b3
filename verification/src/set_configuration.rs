//! The `set-configuration` command of the masq command line: its options,
//! the checks on their values, and the command that a command line gives.
//! The command line is read by clap, from a description of the command that
//! this module gives as plain values.

use vstd::prelude::*;
use crate::decimal::{decimal_text, decimal_text_parses, decimal_text_reads_back, parse_unsigned, parse_unsigned_text};

verus! {

/// The check that clap runs on the value of an option.
#[derive(Clone, Copy, Debug, PartialEq, Eq, Structural)]
pub enum ValueCheck {
    /// A gas price in Gwei: a whole number from 1 to 99.
    GasPrice,
    /// A block number: any number that fits in 64 bits.
    StartBlock,
}

/// Whether `value` passes `check`.
pub open spec fn check_accepts(check: ValueCheck, value: Seq<char>) -> bool {
    match check {
        ValueCheck::GasPrice => parse_unsigned(value, 255) matches Some(g) && 1 <= g && g <= 99,
        ValueCheck::StartBlock => parse_unsigned(value, u64::MAX as nat) is Some,
    }
}

/// Accepts a gas price of 1 to 99 Gwei; gives back the text otherwise.
pub fn validate_gas_price(gas_price: String) -> (r: Result<(), String>)
    ensures
        r is Ok <==> check_accepts(ValueCheck::GasPrice, gas_price@),
        r matches Err(text) ==> text == gas_price,
{
    match parse_unsigned_text(gas_price.as_str(), 255) {
        Some(g) => if 1 <= g && g <= 99 { Ok(()) } else { Err(gas_price) },
        None => Err(gas_price),
    }
}

/// Accepts a block number that fits in 64 bits; gives back the text otherwise.
pub fn validate_start_block(start_block: String) -> (r: Result<(), String>)
    ensures
        r is Ok <==> check_accepts(ValueCheck::StartBlock, start_block@),
        r matches Err(text) ==> text == start_block,
{
    match parse_unsigned_text(start_block.as_str(), u64::MAX) {
        Some(_) => Ok(()),
        None => Err(start_block),
    }
}

/// Runs `check` on `value`.
pub fn check_value(check: ValueCheck, value: String) -> (r: Result<(), String>)
    ensures
        r is Ok <==> check_accepts(check, value@),
        r matches Err(text) ==> text == value,
{
    match check {
        ValueCheck::GasPrice => validate_gas_price(value),
        ValueCheck::StartBlock => validate_start_block(value),
    }
}

/// An option of a command that takes one value: `--long VALUE_NAME`.
pub struct OptionSpec {
    pub name: String,
    pub long: String,
    pub value_name: String,
    pub help: String,
    pub required: bool,
    pub check: ValueCheck,
}

/// An option as plain values.
pub struct OptionSpecView {
    pub name: Seq<char>,
    pub long: Seq<char>,
    pub value_name: Seq<char>,
    pub help: Seq<char>,
    pub required: bool,
    pub check: ValueCheck,
}

impl View for OptionSpec {
    type V = OptionSpecView;

    open spec fn view(&self) -> OptionSpecView {
        OptionSpecView {
            name: self.name@,
            long: self.long@,
            value_name: self.value_name@,
            help: self.help@,
            required: self.required,
            check: self.check,
        }
    }
}

/// A command with its options, as clap is told of it.
pub struct CommandSchema {
    pub name: String,
    pub about: String,
    pub options: Vec<OptionSpec>,
}

/// A command as plain values.
pub struct CommandSchemaView {
    pub name: Seq<char>,
    pub about: Seq<char>,
    pub options: Seq<OptionSpecView>,
}

impl View for CommandSchema {
    type V = CommandSchemaView;

    open spec fn view(&self) -> CommandSchemaView {
        CommandSchemaView {
            name: self.name@,
            about: self.about@,
            options: self.options@.map_values(|o: OptionSpec| o@),
        }
    }
}

impl CommandSchemaView {
    /// Option names and long names are all different, and a long name is not
    /// empty and does not start with a dash.
    pub open spec fn wf(self) -> bool {
        &&& forall|i: int, j: int|
            0 <= i < self.options.len() && 0 <= j < self.options.len() && i != j ==> {
                &&& #[trigger] self.options[i].name != #[trigger] self.options[j].name
                &&& self.options[i].long != self.options[j].long
            }
        &&& forall|i: int| 0 <= i < self.options.len() ==> {
            &&& #[trigger] self.options[i].long.len() > 0
            &&& self.options[i].long[0] != '-'
        }
    }
}

/// The command-line words as plain values.
pub open spec fn words_view(words: Seq<String>) -> Seq<Seq<char>> {
    words.map_values(|w: String| w@)
}

/// The values of the options, in the schema's order, as plain values.
pub open spec fn values_view(values: Seq<Option<String>>) -> Seq<Option<Seq<char>>> {
    values.map_values(|v: Option<String>| match v {
        Some(s) => Some(s@),
        None => None,
    })
}

/// A match result as plain values.
pub open spec fn matched_view(matched: Result<Vec<Option<String>>, String>) -> Result<Seq<Option<Seq<char>>>, Seq<char>> {
    match matched {
        Ok(values) => Ok(values_view(values@)),
        Err(message) => Err(message@),
    }
}

/// What clap 2 makes of `words` for the command `schema`: the value of each
/// option (the first, where one is given more than once) in the schema's
/// order, or the text of clap's error.
pub uninterp spec fn clap_matches(schema: CommandSchemaView, words: Seq<Seq<char>>) -> Result<Seq<Option<Seq<char>>>, Seq<char>>;

/// Reads `words` (the command's name first) with clap 2: builds a clap
/// `App` from `schema`, with each option's check as its validator, and calls
/// `App::get_matches_from_safe`; then `ArgMatches::value_of` for each option.
/// Claimed of clap: the result is a function of the schema and the words
/// (`clap_matches`); a successful match gives one entry per option, and clap
/// has run the option's validator on every value it gives, so each value
/// passes its check.
#[verifier::external_body]
fn clap_match_words(schema: &CommandSchema, words: Vec<String>) -> (matched: Result<Vec<Option<String>>, String>)
    requires
        schema@.wf(),
    ensures
        matched_view(matched) == clap_matches(schema@, words_view(words@)),
        matched matches Ok(values) ==> {
            &&& values@.len() == schema@.options.len()
            &&& forall|i: int| 0 <= i < values@.len() && values@[i] is Some
                ==> check_accepts(schema@.options[i].check, (#[trigger] values@[i])->Some_0@)
        },
{
    let mut app = clap::SubCommand::with_name(&schema.name).about(schema.about.as_str());
    for o in schema.options.iter() {
        let check = o.check;
        app = app.arg(clap::Arg::with_name(&o.name).long(&o.long).value_name(&o.value_name)
            .help(&o.help).required(o.required).validator(move |v| check_value(check, v)));
    }
    match app.get_matches_from_safe(words) {
        Ok(m) => Ok(schema.options.iter().map(|o| m.value_of(&o.name).map(String::from)).collect()),
        Err(e) => Err(format!("{}", e)),
    }
}

/// The `set-configuration` command as clap is told of it.
pub open spec fn set_configuration_schema() -> CommandSchemaView {
    CommandSchemaView {
        name: "set-configuration"@,
        about: "Sets Node configuration values being enabled for that operation when the Node is running"@,
        options: seq![
            OptionSpecView {
                name: "gas-price"@,
                long: "gas-price"@,
                value_name: "GAS-PRICE"@,
                help: gas_price_help(),
                required: false,
                check: ValueCheck::GasPrice,
            },
            OptionSpecView {
                name: "start-block"@,
                long: "start-block"@,
                value_name: "START-BLOCK"@,
                help: start_block_help(),
                required: false,
                check: ValueCheck::StartBlock,
            },
        ],
    }
}

/// The help text of the gas-price option.
pub open spec fn gas_price_help() -> Seq<char> {
    "The Gas Price is the amount of Gwei you will pay per unit of gas used in a transaction. If left unspecified, MASQ Node will use the previously stored value (Default 1). Valid range is 1-99 Gwei."@
}

/// The help text of the start-block option.
pub open spec fn start_block_help() -> Seq<char> {
    "Order number of the Ethereum block where scanning for your personal transaction should start at.Be careful not to choose a number higher than the historically biggest one on the blockchain."@
}

/// The description of the `set-configuration` command: two optional options,
/// `--gas-price` and `--start-block`, each with one checked value.
pub fn set_configuration_subcommand() -> (r: CommandSchema)
    ensures
        r@ == set_configuration_schema(),
        r@.wf(),
{
    let gas_price = OptionSpec {
        name: "gas-price".to_owned(),
        long: "gas-price".to_owned(),
        value_name: "GAS-PRICE".to_owned(),
        help: "The Gas Price is the amount of Gwei you will pay per unit of gas used in a transaction. If left unspecified, MASQ Node will use the previously stored value (Default 1). Valid range is 1-99 Gwei.".to_owned(),
        required: false,
        check: ValueCheck::GasPrice,
    };
    let start_block = OptionSpec {
        name: "start-block".to_owned(),
        long: "start-block".to_owned(),
        value_name: "START-BLOCK".to_owned(),
        help: "Order number of the Ethereum block where scanning for your personal transaction should start at.Be careful not to choose a number higher than the historically biggest one on the blockchain.".to_owned(),
        required: false,
        check: ValueCheck::StartBlock,
    };
    let mut options: Vec<OptionSpec> = Vec::new();
    options.push(gas_price);
    options.push(start_block);
    let schema = CommandSchema {
        name: "set-configuration".to_owned(),
        about: "Sets Node configuration values being enabled for that operation when the Node is running".to_owned(),
        options,
    };
    proof {
        reveal_strlit("gas-price");
        reveal_strlit("start-block");
        assert(schema@.options =~= set_configuration_schema().options);
        assert("gas-price"@[0] != "start-block"@[0]);
    }
    schema
}

/// The `set-configuration` command: the values to set, where given.
#[derive(Clone, Copy, Debug, PartialEq, Eq, Structural)]
pub struct SetConfigurationCommand {
    pub gas_price_opt: Option<u8>,
    pub start_block_opt: Option<u64>,
}

/// The text of the error for a `set-configuration` without arguments.
pub open spec fn no_arguments_text() -> Seq<char> {
    "This command is not supported without arguments"@
}

/// The command that the option values give: each value as a number.
pub open spec fn command_from_values(values: Seq<Option<Seq<char>>>) -> SetConfigurationCommand {
    SetConfigurationCommand {
        gas_price_opt: match values[0] {
            Some(v) => Some(parse_unsigned(v, 255).unwrap() as u8),
            None => None,
        },
        start_block_opt: match values[1] {
            Some(v) => Some(parse_unsigned(v, u64::MAX as nat).unwrap() as u64),
            None => None,
        },
    }
}

/// The command that a match result gives, or the match's error.
pub open spec fn command_from_match(matched: Result<Seq<Option<Seq<char>>>, Seq<char>>) -> Result<SetConfigurationCommand, Seq<char>> {
    match matched {
        Ok(values) => Ok(command_from_values(values)),
        Err(message) => Err(message),
    }
}

/// The outcome of the command line `words`: an error without arguments,
/// otherwise what clap's match gives.
pub open spec fn set_configuration_outcome(words: Seq<Seq<char>>) -> Result<SetConfigurationCommand, Seq<char>> {
    if words.len() == 1 {
        Err(no_arguments_text())
    } else {
        command_from_match(clap_matches(set_configuration_schema(), words))
    }
}

/// An outcome as plain values.
pub open spec fn outcome_view(r: Result<SetConfigurationCommand, String>) -> Result<SetConfigurationCommand, Seq<char>> {
    match r {
        Ok(command) => Ok(command),
        Err(message) => Err(message@),
    }
}

impl SetConfigurationCommand {
    /// The command from the words of a command line, its name first.
    pub fn new(pieces: Vec<String>) -> (r: Result<SetConfigurationCommand, String>)
        ensures
            outcome_view(r) == set_configuration_outcome(words_view(pieces@)),
    {
        if pieces.len() == 1 {
            Err("This command is not supported without arguments".to_owned())
        } else {
            let schema = set_configuration_subcommand();
            let matched = clap_match_words(&schema, pieces);
            SetConfigurationCommand::from_matches(matched)
        }
    }

    /// The command from clap's match of its two options, gas price first: each
    /// value, which has passed its check, read as a number; or clap's error.
    pub fn from_matches(matched: Result<Vec<Option<String>>, String>) -> (r: Result<SetConfigurationCommand, String>)
        requires
            matched matches Ok(values) ==> {
                &&& values@.len() == 2
                &&& values@[0] matches Some(v) ==> check_accepts(ValueCheck::GasPrice, v@)
                &&& values@[1] matches Some(v) ==> check_accepts(ValueCheck::StartBlock, v@)
            },
        ensures
            outcome_view(r) == command_from_match(matched_view(matched)),
    {
        match matched {
            Ok(values) => {
                let gas_price_opt = match &values[0] {
                    Some(v) => {
                        let g = parse_unsigned_text(v.as_str(), 255).unwrap();
                        Some(g as u8)
                    },
                    None => None,
                };
                let start_block_opt = match &values[1] {
                    Some(v) => Some(parse_unsigned_text(v.as_str(), u64::MAX).unwrap()),
                    None => None,
                };
                Ok(SetConfigurationCommand { gas_price_opt, start_block_opt })
            },
            Err(message) => Err(message),
        }
    }
}

/// What a `set-configuration` command line sets, whatever clap matched: the
/// command comes out; it sets a gas price exactly when `--gas-price` is given,
/// and then the number (1 to 99) that the given value denotes; it sets a
/// start block exactly when `--start-block` is given, and then the number that
/// the given value denotes, zero included.
pub proof fn set_configuration_values_law(words: Seq<Seq<char>>, values: Seq<Option<Seq<char>>>)
    requires
        words.len() != 1,
        clap_matches(set_configuration_schema(), words) == Ok::<Seq<Option<Seq<char>>>, Seq<char>>(values),
        values.len() == 2,
        values[0] matches Some(v) ==> check_accepts(ValueCheck::GasPrice, v),
        values[1] matches Some(v) ==> check_accepts(ValueCheck::StartBlock, v),
    ensures
        set_configuration_outcome(words) is Ok,
        ({
            let command = set_configuration_outcome(words)->Ok_0;
            &&& (command.gas_price_opt is Some <==> values[0] is Some)
            &&& (command.start_block_opt is Some <==> values[1] is Some)
            &&& values[0] matches Some(v) ==> {
                &&& parse_unsigned(v, 255) == Some(command.gas_price_opt->Some_0 as nat)
                &&& 1 <= command.gas_price_opt->Some_0 <= 99
            }
            &&& values[1] matches Some(v) ==> parse_unsigned(v, u64::MAX as nat) == Some(command.start_block_opt->Some_0 as nat)
        }),
{
}

/// Writing a gas price and a start block in decimal and reading them as the
/// values of the two options gives them back: the command sets exactly that
/// gas price and that start block.
pub proof fn set_configuration_reads_back_law(gas_price: u8, start_block: u64)
    requires
        1 <= gas_price <= 99,
    ensures
        command_from_values(seq![Some(decimal_text(gas_price as nat)), Some(decimal_text(start_block as nat))])
            == (SetConfigurationCommand { gas_price_opt: Some(gas_price), start_block_opt: Some(start_block) }),
{
    decimal_text_reads_back(gas_price as nat, 255);
    decimal_text_reads_back(start_block as nat, u64::MAX as nat);
}

/// The checks on the values, over every number written in decimal: a gas
/// price is accepted exactly from 1 to 99, a start block exactly when it fits
/// in 64 bits.
pub proof fn value_checks_law(n: nat)
    ensures
        check_accepts(ValueCheck::GasPrice, decimal_text(n)) <==> 1 <= n <= 99,
        check_accepts(ValueCheck::StartBlock, decimal_text(n)) <==> n <= u64::MAX,
{
    decimal_text_parses(n, 255);
    decimal_text_parses(n, u64::MAX as nat);
}

} // verus!
