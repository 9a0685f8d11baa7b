//! The serial dialect: command tokens, numeric rendering and parsing, and
//! response-line handling under the echo and prompt flags.

use coherent_rs::CoherentError;
use coherent_rs::laser::{LaserCommand, LaserState, Query, ShutterState, TuningStatus};
use coherent_rs::laser::discoverynx::{DiscoveryLaser, DiscoveryNXCommands};
use coherent_rs::laser::discoverynx::queries;
use coherent_rs::units::{format_milli, parse_i32, parse_milli, parse_u8, Milli};
use coherent_rs::wire::{interpret_probe, parse_command_response, parse_query_response,
    parse_serial_response, trim_str};

#[test]
fn command_tokens_match_the_dialect() {
    let cases = vec![
        (DiscoveryNXCommands::Echo { echo_on: true }, "E=1"),
        (DiscoveryNXCommands::Echo { echo_on: false }, "E=0"),
        (DiscoveryNXCommands::Laser { state: LaserState::On }, "L=1"),
        (DiscoveryNXCommands::Laser { state: LaserState::Standby }, "L=0"),
        (
            DiscoveryNXCommands::Shutter {
                laser: DiscoveryLaser::VariableWavelength,
                state: ShutterState::Open,
            },
            "S=1",
        ),
        (
            DiscoveryNXCommands::Shutter {
                laser: DiscoveryLaser::FixedWavelength,
                state: ShutterState::Closed,
            },
            "SFIXED=0",
        ),
        (DiscoveryNXCommands::FaultClear, "FC"),
        (
            DiscoveryNXCommands::AlignmentMode {
                laser: DiscoveryLaser::VariableWavelength,
                alignment_mode_on: true,
            },
            "ALIGN=1",
        ),
        (
            DiscoveryNXCommands::AlignmentMode {
                laser: DiscoveryLaser::FixedWavelength,
                alignment_mode_on: false,
            },
            "ALIGNFIXED=0",
        ),
        (DiscoveryNXCommands::Wavelength { wavelength_nm: Milli { milli: 800_000 } }, "WV=800"),
        (DiscoveryNXCommands::Wavelength { wavelength_nm: Milli { milli: 840_500 } }, "WV=840.5"),
        (DiscoveryNXCommands::Heartbeat, "HB"),
        (DiscoveryNXCommands::GddCurve { curve_num: 3 }, "GDD=3"),
        (DiscoveryNXCommands::GddCurveN { curve_name: "alpha".to_string() }, "GDDCURVEN=alpha"),
        (DiscoveryNXCommands::Gdd { gdd_val: Milli { milli: -1_250 } }, "GDD=-1.25"),
        (DiscoveryNXCommands::SetCurveN { new_curve_name: "beta".to_string() }, "SETCURVEN=beta"),
    ];
    for (command, token) in cases {
        assert_eq!(command.to_string(), token.to_string());
    }
}

#[test]
fn query_tokens_match_the_dialect() {
    assert_eq!(queries::Echo {}.to_string(), "?E".to_string());
    assert_eq!(queries::Laser {}.to_string(), "?L".to_string());
    assert_eq!(
        queries::Shutter { laser: DiscoveryLaser::VariableWavelength }.to_string(),
        "?S".to_string()
    );
    assert_eq!(
        queries::Shutter { laser: DiscoveryLaser::FixedWavelength }.to_string(),
        "?SFIXED".to_string()
    );
    assert_eq!(queries::Keyswitch {}.to_string(), "?K".to_string());
    assert_eq!(queries::Faults {}.to_string(), "?F".to_string());
    assert_eq!(queries::FaultText {}.to_string(), "?FT".to_string());
    assert_eq!(queries::Tuning {}.to_string(), "?TS".to_string());
    assert_eq!(
        queries::AlignmentMode { laser: DiscoveryLaser::VariableWavelength }.to_string(),
        "?ALIGNVAR".to_string()
    );
    assert_eq!(
        queries::AlignmentMode { laser: DiscoveryLaser::FixedWavelength }.to_string(),
        "?ALIGNFIXED".to_string()
    );
    assert_eq!(queries::Status {}.to_string(), "?ST".to_string());
    assert_eq!(queries::Wavelength {}.to_string(), "?WV".to_string());
    assert_eq!(
        queries::Power { laser: DiscoveryLaser::VariableWavelength }.to_string(),
        "?PVAR".to_string()
    );
    assert_eq!(
        queries::Power { laser: DiscoveryLaser::FixedWavelength }.to_string(),
        "?PFIXED".to_string()
    );
    assert_eq!(queries::GddCurve {}.to_string(), "?GDDCURVE".to_string());
    assert_eq!(queries::GddCurveN {}.to_string(), "?GDDCURVEN".to_string());
    assert_eq!(queries::Gdd {}.to_string(), "?GDD".to_string());
    assert_eq!(queries::Serial {}.to_string(), "?SN".to_string());
}

#[test]
fn query_parsers_read_typed_results() {
    assert_eq!(queries::Echo {}.parse_result("1").unwrap(), true);
    assert_eq!(queries::Echo {}.parse_result("0").unwrap(), false);
    assert_eq!(queries::Laser {}.parse_result("1").unwrap(), LaserState::On);
    assert_eq!(queries::Laser {}.parse_result("0").unwrap(), LaserState::Standby);
    assert!(matches!(
        queries::Laser {}.parse_result("x"),
        Err(CoherentError::InvalidResponseError(_))
    ));
    let shutter = queries::Shutter { laser: DiscoveryLaser::VariableWavelength };
    assert_eq!(shutter.parse_result("1").unwrap(), ShutterState::Open);
    assert_eq!(shutter.parse_result("0").unwrap(), ShutterState::Closed);
    assert!(matches!(
        shutter.parse_result("2"),
        Err(CoherentError::InvalidResponseError(_))
    ));
    assert_eq!(queries::Keyswitch {}.parse_result("1").unwrap(), true);
    assert_eq!(queries::Faults {}.parse_result("0").unwrap(), 0u8);
    assert_eq!(queries::Faults {}.parse_result("17").unwrap(), 17u8);
    assert!(matches!(
        queries::Faults {}.parse_result("256"),
        Err(CoherentError::InvalidResponseError(_))
    ));
    assert_eq!(
        queries::FaultText {}.parse_result("No faults").unwrap(),
        "No faults".to_string()
    );
    assert_eq!(queries::Tuning {}.parse_result("1").unwrap(), TuningStatus::Tuning);
    assert_eq!(queries::Tuning {}.parse_result("0").unwrap(), TuningStatus::Ready);
    assert_eq!(
        queries::Wavelength {}.parse_result("800.00").unwrap(),
        Milli { milli: 800_000 }
    );
    assert!(matches!(
        queries::Wavelength {}.parse_result("eight hundred"),
        Err(CoherentError::InvalidResponseError(_))
    ));
    assert_eq!(queries::GddCurve {}.parse_result("-2").unwrap(), -2i32);
    assert_eq!(queries::Gdd {}.parse_result("-10000").unwrap(), Milli { milli: -10_000_000 });
    assert_eq!(queries::Serial {}.parse_result("ABC123").unwrap(), "ABC123".to_string());
}

#[test]
fn format_milli_renders_plain_decimals() {
    assert_eq!(format_milli(Milli { milli: 800_000 }), "800".to_string());
    assert_eq!(format_milli(Milli { milli: 840_500 }), "840.5".to_string());
    assert_eq!(format_milli(Milli { milli: -5_250 }), "-5.25".to_string());
    assert_eq!(format_milli(Milli { milli: 0 }), "0".to_string());
    assert_eq!(format_milli(Milli { milli: 1 }), "0.001".to_string());
    assert_eq!(format_milli(Milli { milli: -10_000_000 }), "-10000".to_string());
    assert_eq!(format_milli(Milli { milli: 123_456 }), "123.456".to_string());
}

#[test]
fn parse_milli_reads_plain_decimals() {
    assert_eq!(parse_milli("800"), Some(Milli { milli: 800_000 }));
    assert_eq!(parse_milli("800.00"), Some(Milli { milli: 800_000 }));
    assert_eq!(parse_milli("840.5"), Some(Milli { milli: 840_500 }));
    assert_eq!(parse_milli("-10000"), Some(Milli { milli: -10_000_000 }));
    assert_eq!(parse_milli("0.0015"), Some(Milli { milli: 1 }));
    assert_eq!(parse_milli(""), None);
    assert_eq!(parse_milli("-"), None);
    assert_eq!(parse_milli("12a"), None);
    assert_eq!(parse_milli("1.2.3"), None);
    // The largest accepted whole part is just under a quadrillion.
    assert_eq!(
        parse_milli("999999999999999"),
        Some(Milli { milli: 999_999_999_999_999_000 })
    );
    assert_eq!(parse_milli("1000000000000000"), None);
}

#[test]
fn parse_u8_and_i32_read_decimals() {
    assert_eq!(parse_u8("255"), Some(255));
    assert_eq!(parse_u8("007"), Some(7));
    assert_eq!(parse_u8("256"), None);
    assert_eq!(parse_u8(""), None);
    assert_eq!(parse_i32("2147483647"), Some(2147483647));
    assert_eq!(parse_i32("-2147483648"), Some(-2147483648));
    assert_eq!(parse_i32("2147483648"), None);
    assert_eq!(parse_i32("--1"), None);
}

#[test]
fn command_response_accepts_clean_echo() {
    // An instrument with echo on and no prompt repeats the token and a
    // space; an empty residual means the command was accepted.
    let r = parse_command_response(true, false, "WV=800", "WV=800 \r\n");
    assert!(r.is_ok());
}

#[test]
fn command_response_surfaces_rejected_arguments() {
    let r = parse_command_response(true, false, "WV=0", "WV=0 INVALID\r\n");
    match r {
        Err(CoherentError::InvalidArgumentsError(tail)) => assert_eq!(tail, "INVALID".to_string()),
        other => panic!("expected InvalidArgumentsError, got {:?}", other),
    }
}

#[test]
fn command_response_reads_not_executed() {
    let r = parse_command_response(true, false, "WV=800", "COMMAND NOT EXECUTED\r\n");
    assert!(matches!(r, Err(CoherentError::CommandNotExecutedError)));
}

#[test]
fn command_response_wants_the_echo() {
    let r = parse_command_response(true, false, "WV=800", "garbage\r\n");
    assert!(matches!(r, Err(CoherentError::InvalidResponseError(_))));
}

#[test]
fn query_response_strips_prompt_and_echo() {
    let r = parse_query_response(true, true, "?WV", "Chameleon> ?WV 800.00\r\n");
    assert_eq!(r.unwrap(), "800.00".to_string());

    let r = parse_query_response(false, false, "?WV", "800.00\r\n");
    assert_eq!(r.unwrap(), "800.00".to_string());

    let r = parse_query_response(true, true, "?WV", "no prompt here\r\n");
    assert!(matches!(r, Err(CoherentError::InvalidResponseError(_))));
}

#[test]
fn probe_discovers_echo_and_prompt() {
    assert_eq!(interpret_probe("?E E 1\r\n").unwrap(), (true, false));
    assert_eq!(interpret_probe("Chameleon> 0\r\n").unwrap(), (false, true));
    assert_eq!(interpret_probe("0\r\n").unwrap(), (false, false));
    assert!(matches!(
        interpret_probe("no line ending"),
        Err(CoherentError::InvalidResponseError(_))
    ));
}

#[test]
fn serial_probe_reads_the_serial_number() {
    assert_eq!(
        parse_serial_response(true, "?SN 123456 \r\n").unwrap(),
        "123456".to_string()
    );
    assert_eq!(parse_serial_response(false, " 123456\r\n").unwrap(), "123456".to_string());
    assert!(matches!(
        parse_serial_response(true, "123456\r\n"),
        Err(CoherentError::InvalidResponseError(_))
    ));
}

#[test]
fn trim_removes_both_ends() {
    assert_eq!(trim_str(" \t hi \r\n"), "hi");
    assert_eq!(trim_str(""), "");
    assert_eq!(trim_str(" \r\n"), "");
}
