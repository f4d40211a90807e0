use ddate::input::get_input_type;
use ddate::input::Args;
use ddate::input::InputType;

fn args_with_timestamp(timestamp: bool) -> Args {
    Args {
        arg_date: None,
        flag_help: false,
        flag_version: false,
        flag_discordian: false,
        flag_timestamp: timestamp,
    }
}

#[test]
fn test_get_input_type_timestamp() {
    assert_eq!(
        get_input_type(&args_with_timestamp(true)),
        InputType::UnixTimestamp
    );
}

#[test]
fn test_get_input_type_iso() {
    assert_eq!(
        get_input_type(&args_with_timestamp(false)),
        InputType::Iso6801
    );
}
