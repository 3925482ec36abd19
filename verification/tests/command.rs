use zencan::command::{Cli, CliError, Commands, LssCommands, NmtAction, NmtNodeArg, SdoDataType};

#[test]
fn test_negative_sdo_write_args() {
    let cli = Cli::try_parse_from(["zencan-cli", "write", "1", "0x2000", "1", "i32", "-4"])
        .expect("negative signed SDO write value should parse");

    match cli.command {
        Commands::Write(args) => {
            assert_eq!(args.node_id, 1);
            assert_eq!(args.index, 0x2000);
            assert_eq!(args.sub, 1);
            assert_eq!(args.data_type, SdoDataType::I32);
            assert_eq!(args.value, "-4");
        }
        other => panic!("expected write command, got {other:?}"),
    }
}

#[test]
fn test_hex_node_id_args() {
    let cli = Cli::try_parse_from(["zencan-cli", "read", "0x10", "0x2000", "1"])
        .expect("hex node ID should parse");

    match cli.command {
        Commands::Read(args) => {
            assert_eq!(args.node_id, 16);
            assert_eq!(args.index, 0x2000);
            assert_eq!(args.sub, 1);
        }
        other => panic!("expected read command, got {other:?}"),
    }
}

#[test]
fn read_with_data_type_and_uppercase_hex() {
    let cli = Cli::try_parse_from(["zencan-cli", "read", "5", "0X1018", "0x2", "u32"]).unwrap();
    match cli.command {
        Commands::Read(args) => {
            assert_eq!(args.node_id, 5);
            assert_eq!(args.index, 0x1018);
            assert_eq!(args.sub, 2);
            assert_eq!(args.data_type, Some(SdoDataType::U32));
        }
        other => panic!("expected read command, got {other:?}"),
    }
}

#[test]
fn negative_value_refused_outside_write_value() {
    let r = Cli::try_parse_from(["zencan-cli", "read", "-1", "0x2000", "1"]);
    assert_eq!(r.unwrap_err(), CliError::UnexpectedArgument(2));
}

#[test]
fn node_id_out_of_range_is_invalid_value() {
    let r = Cli::try_parse_from(["zencan-cli", "read", "256", "0x2000", "1"]);
    assert_eq!(r.unwrap_err(), CliError::InvalidValue(2));
    let r = Cli::try_parse_from(["zencan-cli", "read", "1", "0x10000", "1"]);
    assert_eq!(r.unwrap_err(), CliError::InvalidValue(3));
}

#[test]
fn missing_and_extra_arguments() {
    assert_eq!(Cli::try_parse_from(["zencan-cli"]).unwrap_err(), CliError::MissingSubcommand);
    assert_eq!(
        Cli::try_parse_from(["zencan-cli", "read", "1", "2"]).unwrap_err(),
        CliError::MissingArgument
    );
    assert_eq!(
        Cli::try_parse_from(["zencan-cli", "scan", "1"]).unwrap_err(),
        CliError::UnexpectedArgument(2)
    );
    assert_eq!(
        Cli::try_parse_from(["zencan-cli", "bogus"]).unwrap_err(),
        CliError::UnknownSubcommand(1)
    );
    assert_eq!(
        Cli::try_parse_from(["zencan-cli", "read", "1", "2", "3", "nope"]).unwrap_err(),
        CliError::InvalidValue(5)
    );
}

#[test]
fn nmt_node_args() {
    assert_eq!(NmtNodeArg::parse("all"), Ok(NmtNodeArg::All));
    assert_eq!(NmtNodeArg::parse("0"), Ok(NmtNodeArg::All));
    assert_eq!(NmtNodeArg::parse("0x7f"), Ok(NmtNodeArg::Specific(127)));
    assert_eq!(NmtNodeArg::parse("12"), Ok(NmtNodeArg::Specific(12)));
    assert_eq!(NmtNodeArg::parse("128"), Err("Node ID must be between 0 and 127"));
    assert_eq!(
        NmtNodeArg::parse("none"),
        Err("Must specify a node ID between 0 and 127, or 'all' to broadcast")
    );
    assert_eq!(NmtNodeArg::Specific(12).raw(), 12);
    assert_eq!(NmtNodeArg::All.raw(), 0);
    let cli = Cli::try_parse_from(["zencan-cli", "nmt", "reset-comms", "all"]).unwrap();
    match cli.command {
        Commands::Nmt(args) => {
            assert_eq!(args.action, NmtAction::ResetComms);
            assert_eq!(args.node, NmtNodeArg::All);
        }
        other => panic!("expected nmt command, got {other:?}"),
    }
}

#[test]
fn lss_subcommands() {
    let cli = Cli::try_parse_from(["zencan-cli", "lss", "fastscan"]).unwrap();
    match cli.command {
        Commands::Lss(LssCommands::Fastscan { timeout }) => assert_eq!(timeout, 5),
        other => panic!("expected fastscan, got {other:?}"),
    }
    let cli = Cli::try_parse_from(["zencan-cli", "lss", "set-node-id", "0x20", "1", "2", "3", "0x4"]).unwrap();
    match cli.command {
        Commands::Lss(LssCommands::SetNodeId { node_id, identity }) => {
            assert_eq!(node_id, 0x20);
            let id = identity.unwrap();
            assert_eq!((id.vendor_id, id.product_code, id.revision, id.serial), (1, 2, 3, 4));
        }
        other => panic!("expected set-node-id, got {other:?}"),
    }
    assert_eq!(
        Cli::try_parse_from(["zencan-cli", "lss", "store-config", "1", "2"]).unwrap_err(),
        CliError::MissingArgument
    );
    let cli = Cli::try_parse_from(["zencan-cli", "lss", "global", "1"]).unwrap();
    match cli.command {
        Commands::Lss(LssCommands::Global { enable }) => assert_eq!(enable, 1),
        other => panic!("expected global, got {other:?}"),
    }
}

#[test]
fn sync_and_load_config() {
    let cli = Cli::try_parse_from(["zencan-cli", "sync", "+7"]).unwrap();
    match cli.command {
        Commands::Sync(args) => assert_eq!(args.count, Some(7)),
        other => panic!("expected sync, got {other:?}"),
    }
    assert_eq!(
        Cli::try_parse_from(["zencan-cli", "sync", "256"]).unwrap_err(),
        CliError::InvalidValue(2)
    );
    let cli = Cli::try_parse_from(["zencan-cli", "load-config", "3", "node.toml"]).unwrap();
    match cli.command {
        Commands::LoadConfig(args) => {
            assert_eq!(args.node_id, 3);
            assert_eq!(args.path, "node.toml");
        }
        other => panic!("expected load-config, got {other:?}"),
    }
}
