use masq::set_configuration::{
    check_value, set_configuration_subcommand, validate_gas_price, validate_start_block,
    SetConfigurationCommand, ValueCheck,
};

fn words(list: &[&str]) -> Vec<String> {
    list.iter().map(|s| s.to_string()).collect()
}

#[test]
fn gas_price_range() {
    assert_eq!(validate_gas_price("1".to_string()), Ok(()));
    assert_eq!(validate_gas_price("99".to_string()), Ok(()));
    assert_eq!(validate_gas_price("0".to_string()), Err("0".to_string()));
    assert_eq!(validate_gas_price("100".to_string()), Err("100".to_string()));
    assert_eq!(validate_gas_price("300".to_string()), Err("300".to_string()));
    assert_eq!(validate_gas_price("cheap".to_string()), Err("cheap".to_string()));
}

#[test]
fn start_block_is_any_u64() {
    assert_eq!(validate_start_block("0".to_string()), Ok(()));
    assert_eq!(validate_start_block("18446744073709551615".to_string()), Ok(()));
    assert_eq!(
        validate_start_block("18446744073709551616".to_string()),
        Err("18446744073709551616".to_string())
    );
    assert_eq!(validate_start_block("-5".to_string()), Err("-5".to_string()));
}

#[test]
fn check_value_dispatches() {
    assert_eq!(check_value(ValueCheck::GasPrice, "150".to_string()), Err("150".to_string()));
    assert_eq!(check_value(ValueCheck::StartBlock, "150".to_string()), Ok(()));
}

#[test]
fn schema_has_both_options() {
    let schema = set_configuration_subcommand();
    assert_eq!(schema.name, "set-configuration");
    assert_eq!(schema.options.len(), 2);
    assert_eq!(schema.options[0].long, "gas-price");
    assert_eq!(schema.options[0].check, ValueCheck::GasPrice);
    assert_eq!(schema.options[1].long, "start-block");
    assert_eq!(schema.options[1].value_name, "START-BLOCK");
    assert!(!schema.options[0].required && !schema.options[1].required);
}

#[test]
fn no_arguments_is_refused() {
    assert_eq!(
        SetConfigurationCommand::new(words(&["set-configuration"])),
        Err("This command is not supported without arguments".to_string())
    );
}

#[test]
fn both_values_are_read() {
    assert_eq!(
        SetConfigurationCommand::new(words(&[
            "set-configuration",
            "--gas-price",
            "12",
            "--start-block",
            "456"
        ])),
        Ok(SetConfigurationCommand { gas_price_opt: Some(12), start_block_opt: Some(456) })
    );
}

#[test]
fn one_value_is_read() {
    assert_eq!(
        SetConfigurationCommand::new(words(&["set-configuration", "--start-block=789"])),
        Ok(SetConfigurationCommand { gas_price_opt: None, start_block_opt: Some(789) })
    );
    assert_eq!(
        SetConfigurationCommand::new(words(&["set-configuration", "--gas-price", "+99"])),
        Ok(SetConfigurationCommand { gas_price_opt: Some(99), start_block_opt: None })
    );
}

#[test]
fn invalid_gas_price_is_clap_error() {
    let result = SetConfigurationCommand::new(words(&["set-configuration", "--gas-price", "0"]));
    let message = result.unwrap_err();
    assert!(message.contains("gas-price"), "{}", message);
    assert!(message.contains("error"), "{}", message);
}

#[test]
fn invalid_start_block_is_clap_error() {
    let result = SetConfigurationCommand::new(words(&["set-configuration", "--start-block", "soon"]));
    let message = result.unwrap_err();
    assert!(message.contains("start-block"), "{}", message);
}

#[test]
fn unknown_option_is_clap_error() {
    let result = SetConfigurationCommand::new(words(&["set-configuration", "--gas", "5", "--colour"]));
    assert!(result.is_err());
}

#[test]
fn from_matches_reads_numbers() {
    assert_eq!(
        SetConfigurationCommand::from_matches(Ok(vec![Some("7".to_string()), None])),
        Ok(SetConfigurationCommand { gas_price_opt: Some(7), start_block_opt: None })
    );
    assert_eq!(
        SetConfigurationCommand::from_matches(Err("bad".to_string())),
        Err("bad".to_string())
    );
}
