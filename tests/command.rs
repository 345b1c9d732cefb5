use ota_cli::command::{Campaign, Command, Device, Group, Package, Route, Update};
use ota_cli::error::Error;

#[test]
fn command_words_ignore_case() {
    assert_eq!(Command::parse("device").expect("device"), Command::Device);
    assert_eq!(Command::parse("DEVICE").expect("device"), Command::Device);
    assert_eq!(Command::parse("PaCkAgE").expect("package"), Command::Package);
    assert_eq!("Init".parse::<Command>().expect("init"), Command::Init);
}

#[test]
fn unknown_command_is_rejected() {
    match Command::parse("Devices") {
        Err(Error::Command(m)) => assert_eq!(m, "unknown command: Devices"),
        other => panic!("unexpected: {:?}", other),
    }
    assert!(Command::parse("").is_err());
}

#[test]
fn sub_command_words_ignore_case() {
    assert_eq!(Campaign::parse("ListUpdates").expect("w"), Campaign::ListUpdates);
    assert_eq!(Campaign::parse("CREATEUPDATE").expect("w"), Campaign::CreateUpdate);
    assert_eq!(Device::parse("Delete").expect("w"), Device::Delete);
    assert_eq!(Group::parse("rEnAmE").expect("w"), Group::Rename);
    assert_eq!(Package::parse("Upload").expect("w"), Package::Upload);
    assert_eq!(Update::parse("LAUNCH").expect("w"), Update::Launch);
}

#[test]
fn unknown_sub_commands_are_rejected() {
    match Campaign::parse("start") {
        Err(Error::Command(m)) => assert_eq!(m, "unknown campaign subcommand: start"),
        other => panic!("unexpected: {:?}", other),
    }
    match Device::parse("add") {
        Err(Error::Command(m)) => assert_eq!(m, "unknown device subcommand: add"),
        other => panic!("unexpected: {:?}", other),
    }
    match Group::parse("delete") {
        Err(Error::Command(m)) => assert_eq!(m, "unknown group subcommand: delete"),
        other => panic!("unexpected: {:?}", other),
    }
    match Package::parse("remove") {
        Err(Error::Command(m)) => assert_eq!(m, "unknown package subcommand: remove"),
        other => panic!("unexpected: {:?}", other),
    }
    match Update::parse("cancel") {
        Err(Error::Command(m)) => assert_eq!(m, "unknown update subcommand: cancel"),
        other => panic!("unexpected: {:?}", other),
    }
}

#[test]
fn routing_selects_the_operation() {
    assert_eq!(Command::Init.route(None).expect("init"), Route::Init);
    assert_eq!(Command::Init.route(Some("ignored")).expect("init"), Route::Init);
    assert_eq!(Command::Device.route(Some("LIST")).expect("route"), Route::Device(Device::List));
    assert_eq!(Command::Package.route(Some("fetch")).expect("route"), Route::Package(Package::Fetch));
    assert_eq!(Command::Update.route(Some("Create")).expect("route"), Route::Update(Update::Create));
    assert_eq!(Command::Campaign.route(Some("cancel")).expect("route"), Route::Campaign(Campaign::Cancel));
    assert_eq!(Command::Group.route(Some("add")).expect("route"), Route::Group(Group::Add));
}

#[test]
fn routing_needs_a_known_sub_command() {
    match Command::Group.route(None) {
        Err(Error::Args(m)) => assert_eq!(m, "sub-command required"),
        other => panic!("unexpected: {:?}", other),
    }
    match Command::Update.route(Some("fetch")) {
        Err(Error::Command(m)) => assert_eq!(m, "unknown update subcommand: fetch"),
        other => panic!("unexpected: {:?}", other),
    }
}

#[test]
fn lowered_words_are_matched_exactly() {
    assert_eq!(Command::from_lowercase("device", "DeViCe").expect("device"), Command::Device);
    match Command::from_lowercase("DEVICE", "DEVICE") {
        Err(Error::Command(m)) => assert_eq!(m, "unknown command: DEVICE"),
        other => panic!("unexpected: {:?}", other),
    }
    assert_eq!(Group::from_lowercase("remove", "Remove").expect("remove"), Group::Remove);
    match Package::from_lowercase("list ", "List ") {
        Err(Error::Command(m)) => assert_eq!(m, "unknown package subcommand: List "),
        other => panic!("unexpected: {:?}", other),
    }
}
