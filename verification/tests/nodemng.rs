use nodemng::cidr::{Address, Network};
use nodemng::ippool::{IpPool, IpPoolError};
use nodemng::nodemng::{
    archive_command, clear_command, copy_command, encode_command, make_dir_command, sign_command,
    Action, FilesFound, NodeError, NodeMNG, Outcome, Provision, Stage, Step,
};

const ALL_FOUND: FilesFound = FilesFound { cacrt: true, cakey: true, cfg: true };

fn v4(a: u8, b: u8, c: u8, d: u8, prefix: u8) -> Network {
    Network::new(Address::V4(u32::from_be_bytes([a, b, c, d])), prefix).unwrap()
}

fn done(text: &str) -> Outcome {
    Outcome::Success(text.to_string())
}

fn failed(text: &str) -> Outcome {
    Outcome::Failure(text.to_string())
}

/// Goes through the stages of a call, with the issuing program missing.
fn provision_without_issuer(mng: &mut NodeMNG, name: &str) -> Result<String, NodeError> {
    let mut call = mng.get_node(name)?;
    loop {
        let outcome = match call.stage {
            Stage::Sign => failed("No such file or directory (os error 2)"),
            _ => done(""),
        };
        match call.advance(outcome) {
            Step::Continue(next) => call = next,
            Step::Done(result) => return result,
        }
    }
}

fn call_at(stage: Stage) -> Provision {
    Provision {
        name: "alpha".to_string(),
        address: v4(192, 168, 0, 7, 24),
        cacrt_path: "./ca.crt".to_string(),
        cakey_path: "./ca.key".to_string(),
        cfg_path: "./config.yml".to_string(),
        stage,
    }
}

fn stage_after(step: Step) -> Stage {
    match step {
        Step::Continue(call) => call.stage,
        Step::Done(result) => panic!("the call ended: {:?}", result),
    }
}

#[test]
fn it_works() {
    let crt = std::path::Path::new("./ca.crt");
    let key = std::path::Path::new("./ca.key");
    let cfg = std::path::Path::new("./config.yml");
    let found = FilesFound { cacrt: crt.exists(), cakey: key.exists(), cfg: cfg.exists() };
    let mng = NodeMNG::new("./ca.crt", "./ca.key", "./config.yml", found, None);
    assert!(mng.is_err());
    if let Ok(mut mng) = mng {
        let node = provision_without_issuer(&mut mng, "123");
        assert!(node.is_err());
    }

    assert_eq!(2 + 2, 4);
}

#[test]
fn a_manager_needs_all_three_files() {
    let mut missing: u8 = 1;
    while missing < 8 {
        let found = FilesFound {
            cacrt: missing & 1 == 0,
            cakey: missing & 2 == 0,
            cfg: missing & 4 == 0,
        };
        let mng = NodeMNG::new("a", "b", "c", found, None);
        assert!(matches!(mng, Err(NodeError::CrtErrorPathNotExist)));
        let pool = IpPool::new(v4(10, 0, 0, 0, 24), 0).unwrap();
        let mng = NodeMNG::new("a", "b", "c", found, Some(pool));
        assert!(matches!(mng, Err(NodeError::CrtErrorPathNotExist)));
        missing += 1;
    }
    assert!(NodeMNG::new("a", "b", "c", ALL_FOUND, None).is_ok());
}

#[test]
fn the_default_pool_starts_at_the_second_address() {
    let mut mng = NodeMNG::new("a", "b", "c", ALL_FOUND, None).unwrap();
    let first = mng.get_node("one").unwrap();
    assert_eq!(first.address, v4(192, 168, 0, 1, 24));
    let second = mng.get_node("two").unwrap();
    assert_eq!(second.address, v4(192, 168, 0, 2, 24));
}

#[test]
fn the_default_pool_has_255_addresses() {
    let mut mng = NodeMNG::new("a", "b", "c", ALL_FOUND, None).unwrap();
    let mut given: u32 = 0;
    while let Ok(call) = mng.get_node("n") {
        given += 1;
        assert_eq!(call.address, v4(192, 168, 0, given as u8, 24));
    }
    assert_eq!(given, 255);
}

#[test]
fn a_manager_uses_the_pool_it_is_given() {
    let pool = IpPool::new(v4(10, 1, 2, 3, 30), 2).unwrap();
    let mut mng = NodeMNG::new("a", "b", "c", ALL_FOUND, Some(pool)).unwrap();
    assert_eq!(mng.get_node("one").unwrap().address, v4(10, 1, 2, 2, 30));
    assert_eq!(mng.get_node("two").unwrap().address, v4(10, 1, 2, 3, 30));
    assert!(matches!(mng.get_node("three"), Err(NodeError::IPErrorEmpty)));
    assert!(matches!(mng.get_node("four"), Err(NodeError::IPErrorEmpty)));
}

#[test]
fn a_call_begins_with_the_name_the_files_and_the_first_stage() {
    let mut mng = NodeMNG::new("./ca.crt", "./ca.key", "./config.yml", ALL_FOUND, None).unwrap();
    let call = mng.get_node("alpha").unwrap();
    assert_eq!(call.name, "alpha");
    assert_eq!(call.cacrt_path, "./ca.crt");
    assert_eq!(call.cakey_path, "./ca.key");
    assert_eq!(call.cfg_path, "./config.yml");
    assert_eq!(call.stage, Stage::Clear);
}

#[test]
fn the_commands_of_a_call() {
    assert_eq!(clear_command("alpha"), vec!["rm", "-rf", "alpha"]);
    assert_eq!(make_dir_command("alpha"), vec!["mkdir", "-p", "alpha"]);
    assert_eq!(
        sign_command("/etc/ca.crt", "/etc/ca.key", "alpha", "192.168.0.7/24"),
        vec![
            "nebula-cert",
            "sign",
            "-ca-crt",
            "/etc/ca.crt",
            "-ca-key",
            "/etc/ca.key",
            "-name",
            "alpha",
            "-ip",
            "192.168.0.7/24",
            "-out-crt",
            "./alpha/host.crt",
            "-out-key",
            "./alpha/host.key",
        ]
    );
    assert_eq!(copy_command("./config.yml", "alpha"), vec!["cp", "./config.yml", "alpha/"]);
    assert_eq!(archive_command("alpha"), vec!["tar", "-zcf", "-", "alpha"]);
    assert_eq!(encode_command(), vec!["base64", "-w", "0"]);
}

#[test]
fn a_name_is_one_argument_whatever_it_holds() {
    assert_eq!(clear_command("two words"), vec!["rm", "-rf", "two words"]);
    assert_eq!(clear_command(""), vec!["rm", "-rf", ""]);
    assert_eq!(copy_command("c f g", "a b"), vec!["cp", "c f g", "a b/"]);
}

#[test]
fn each_stage_has_its_action() {
    match call_at(Stage::Clear).action() {
        Action::Run(args) => assert_eq!(args, clear_command("alpha")),
        other => panic!("{:?}", other),
    }
    match call_at(Stage::MakeDir).action() {
        Action::Run(args) => assert_eq!(args, make_dir_command("alpha")),
        other => panic!("{:?}", other),
    }
    match call_at(Stage::Sign).action() {
        Action::Run(args) => {
            assert_eq!(args, sign_command("./ca.crt", "./ca.key", "alpha", "192.168.0.7/24"))
        }
        other => panic!("{:?}", other),
    }
    match call_at(Stage::CopyConfig).action() {
        Action::Run(args) => assert_eq!(args, copy_command("./config.yml", "alpha")),
        other => panic!("{:?}", other),
    }
    match call_at(Stage::Package).action() {
        Action::Pipe(args, filter) => {
            assert_eq!(args, archive_command("alpha"));
            assert_eq!(filter, encode_command());
        }
        other => panic!("{:?}", other),
    }
}

#[test]
fn the_address_of_an_ipv6_call_is_signed_in_its_own_text() {
    let mut call = call_at(Stage::Sign);
    call.address = Network::new(Address::V6((0xFD00 << 112) | 0x2A), 64).unwrap();
    match call.action() {
        Action::Run(args) => assert_eq!(args[9], "fd00::2a/64"),
        other => panic!("{:?}", other),
    }
}

#[test]
fn a_call_that_succeeds_goes_through_all_stages() {
    assert_eq!(stage_after(call_at(Stage::Clear).advance(done(""))), Stage::MakeDir);
    assert_eq!(stage_after(call_at(Stage::MakeDir).advance(done(""))), Stage::Sign);
    assert_eq!(stage_after(call_at(Stage::Sign).advance(done(""))), Stage::CopyConfig);
    assert_eq!(stage_after(call_at(Stage::CopyConfig).advance(done(""))), Stage::Package);
    match call_at(Stage::Package).advance(done("H4sIAAAA")) {
        Step::Done(Ok(artifact)) => assert_eq!(artifact, "H4sIAAAA"),
        other => panic!("{:?}", other),
    }
}

#[test]
fn a_call_keeps_its_data_from_stage_to_stage() {
    match call_at(Stage::Clear).advance(done("")) {
        Step::Continue(call) => {
            assert_eq!(call.name, "alpha");
            assert_eq!(call.address, v4(192, 168, 0, 7, 24));
            assert_eq!(call.cacrt_path, "./ca.crt");
            assert_eq!(call.cakey_path, "./ca.key");
            assert_eq!(call.cfg_path, "./config.yml");
        }
        other => panic!("{:?}", other),
    }
}

#[test]
fn the_directory_may_fail_to_clear_or_to_be_made() {
    assert_eq!(stage_after(call_at(Stage::Clear).advance(failed("gone"))), Stage::MakeDir);
    assert_eq!(stage_after(call_at(Stage::MakeDir).advance(failed("exists"))), Stage::Sign);
}

#[test]
fn a_failure_of_a_later_stage_ends_the_call_with_its_cause() {
    for stage in [Stage::Sign, Stage::CopyConfig, Stage::Package] {
        match call_at(stage).advance(failed("exit status: 1")) {
            Step::Done(Err(NodeError::CrtErrorCreat(cause))) => assert_eq!(cause, "exit status: 1"),
            other => panic!("{:?}", other),
        }
    }
}

#[test]
fn a_failed_call_does_not_give_its_address_back() {
    let pool = IpPool::new(v4(10, 0, 0, 0, 30), 1).unwrap();
    let mut mng = NodeMNG::new("a", "b", "c", ALL_FOUND, Some(pool)).unwrap();
    let first = provision_without_issuer(&mut mng, "one");
    assert!(matches!(first, Err(NodeError::CrtErrorCreat(_))));
    let second = mng.get_node("two").unwrap();
    assert_eq!(second.address, v4(10, 0, 0, 2, 30));
    let third = mng.get_node("three").unwrap();
    assert_eq!(third.address, v4(10, 0, 0, 3, 30));
    assert!(matches!(mng.get_node("four"), Err(NodeError::IPErrorEmpty)));
}

#[test]
fn node_errors_in_words() {
    assert_eq!(NodeError::IPErrorEmpty.message(), "No ip");
    assert_eq!(NodeError::CrtErrorPathNotExist.message(), "ca crt, key or cfg file not exist");
    assert_eq!(
        NodeError::IPErrorCreat(IpPoolError::OffsetTooBig).message(),
        "Offset is bigger than size of networking"
    );
    assert_eq!(NodeError::CrtErrorCreat("exit status: 2".to_string()).message(), "exit status: 2");
}
