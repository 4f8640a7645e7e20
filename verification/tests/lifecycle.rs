use server_man::definition::ServerConfig;
use server_man::outcome::Outcome;
use server_man::registry::Registry;
use server_man::launcher::launch_recipe;
use server_man::supervisor::{Launch, StartStep, StopStep, Supervisor};

const G1: u64 = 1001;
const G2: u64 = 2002;

fn java_a() -> ServerConfig {
    ServerConfig::JavaConfig {
        name: "A".to_string(),
        dir: "/srv/a".to_string(),
        server_jar: "server.jar".to_string(),
        max_mem: "4G".to_string(),
        min_mem: "1G".to_string(),
        java: "java".to_string(),
        extra_opts: String::new(),
        guild_id: G1,
    }
}

fn bedrock_b() -> ServerConfig {
    ServerConfig::BedrockConfig {
        name: "B".to_string(),
        dir: "/srv/b".to_string(),
        exe: "bedrock_server".to_string(),
        guild_id: G2,
    }
}

fn supervisor() -> Supervisor<u32> {
    Supervisor::new(vec![java_a(), bedrock_b()])
}

/// Starts server `index` with a launch that yields `handle`.
fn start_ok(s: &mut Supervisor<u32>, index: i64, guild: u64, handle: u32) -> Outcome {
    match s.start(index, guild) {
        StartStep::Done(outcome) => outcome,
        StartStep::Launch(launch) => launch.record(Ok(handle), None).unwrap(),
    }
}

#[test]
fn new_supervisor_has_every_server_stopped() {
    let s = supervisor();
    assert_eq!(s.len(), 2);
    assert!(!s.status(0));
    assert!(!s.status(1));
    assert_eq!(s.configs().len(), 2);
}

#[test]
fn scenario_two_guilds() {
    let mut s = supervisor();
    assert!(!s.status(1));
    // start(0, G1): success, slot 0 occupied
    match s.start(0, G1) {
        StartStep::Launch(launch) => {
            assert_eq!(launch.index, 0);
            assert_eq!(launch.recipe.program, "java");
            assert!(launch.slot.is_none());
            assert_eq!(launch.record(Ok(7), None), Ok(Outcome::Started(None)));
        }
        StartStep::Done(o) => panic!("expected a launch, got {:?}", o),
    }
    assert!(s.status(0));
    assert!(!s.status(1));
    // start(0, G2): authorization rejection, slot 0 still holds the first process
    assert_eq!(s.start(0, G2), StartStep::Done(Outcome::WrongGuild));
    assert!(s.status(0));
    // stop(0, G1): the first handle comes out, slot 0 empty
    assert_eq!(s.stop(0, G1), StopStep::Shutdown { index: 0, handle: 7 });
    assert!(!s.status(0));
    // start(1, G1): authorization rejection
    assert_eq!(s.start(1, G1), StartStep::Done(Outcome::WrongGuild));
    assert!(!s.status(1));
}

#[test]
fn second_start_finds_server_running() {
    let mut s = supervisor();
    assert_eq!(start_ok(&mut s, 0, G1, 1), Outcome::Started(None));
    assert_eq!(start_ok(&mut s, 0, G1, 2), Outcome::AlreadyRunning);
    assert_eq!(start_ok(&mut s, 0, G1, 3), Outcome::AlreadyRunning);
    // the slot holds the first handle
    assert_eq!(s.stop(0, G1), StopStep::Shutdown { index: 0, handle: 1 });
}

#[test]
fn wrong_guild_is_refused_whatever_the_slot_holds() {
    let mut s = supervisor();
    assert_eq!(s.start(0, G2), StartStep::Done(Outcome::WrongGuild));
    assert_eq!(s.stop(0, G2), StopStep::Done(Outcome::WrongGuild));
    assert!(!s.status(0));
    assert_eq!(start_ok(&mut s, 0, G1, 5), Outcome::Started(None));
    assert_eq!(s.start(0, G2), StartStep::Done(Outcome::WrongGuild));
    assert_eq!(s.stop(0, G2), StopStep::Done(Outcome::WrongGuild));
    assert!(s.status(0));
    assert_eq!(s.stop(0, G1), StopStep::Shutdown { index: 0, handle: 5 });
}

#[test]
fn second_stop_finds_server_stopped() {
    let mut s = supervisor();
    assert_eq!(start_ok(&mut s, 1, G2, 9), Outcome::Started(None));
    assert_eq!(s.stop(1, G2), StopStep::Shutdown { index: 1, handle: 9 });
    assert_eq!(s.stop(1, G2), StopStep::Done(Outcome::AlreadyStopped));
    assert_eq!(s.stop(1, G2), StopStep::Done(Outcome::AlreadyStopped));
    // a server that never ran
    assert_eq!(s.stop(0, G1), StopStep::Done(Outcome::AlreadyStopped));
}

#[test]
fn round_trip() {
    let mut s = supervisor();
    assert_eq!(start_ok(&mut s, 0, G1, 4), Outcome::Started(None));
    assert!(s.status(0));
    assert_eq!(s.stop(0, G1), StopStep::Shutdown { index: 0, handle: 4 });
    assert!(!s.status(0));
    // and again
    assert_eq!(start_ok(&mut s, 0, G1, 6), Outcome::Started(None));
    assert!(s.status(0));
}

#[test]
fn out_of_range_index_is_refused() {
    let mut s = supervisor();
    assert_eq!(s.start(2, G1), StartStep::Done(Outcome::OutOfBounds));
    assert_eq!(s.start(-1, G1), StartStep::Done(Outcome::OutOfBounds));
    assert_eq!(s.stop(2, G1), StopStep::Done(Outcome::OutOfBounds));
    assert_eq!(s.stop(-1, G2), StopStep::Done(Outcome::OutOfBounds));
    assert_eq!(s.start(i64::MAX, G1), StartStep::Done(Outcome::OutOfBounds));
    assert_eq!(s.stop(i64::MIN, G1), StopStep::Done(Outcome::OutOfBounds));
    assert!(!s.status(2));
    assert!(!s.status(-1));
    assert!(!s.status(i64::MAX));
    assert!(!s.status(i64::MIN));
}

#[test]
fn empty_catalog_refuses_every_index() {
    let mut s: Supervisor<u32> = Supervisor::new(Vec::new());
    assert_eq!(s.len(), 0);
    assert_eq!(s.start(0, G1), StartStep::Done(Outcome::OutOfBounds));
    assert_eq!(s.stop(0, G1), StopStep::Done(Outcome::OutOfBounds));
    assert!(!s.status(0));
}

#[test]
fn failed_launch_leaves_slot_empty() {
    let mut s = supervisor();
    match s.start(0, G1) {
        StartStep::Launch(launch) => assert_eq!(
            launch.record(Err("No such file or directory (os error 2)".to_string()), None),
            Ok(Outcome::LaunchFailed("No such file or directory (os error 2)".to_string()))
        ),
        StartStep::Done(o) => panic!("expected a launch, got {:?}", o),
    }
    assert!(!s.status(0));
    // not retried by itself: the next request launches anew
    assert!(matches!(s.start(0, G1), StartStep::Launch(Launch { index: 0, .. })));
}

#[test]
fn launch_given_up_leaves_slot_empty() {
    let mut s = supervisor();
    assert!(matches!(s.start(1, G2), StartStep::Launch(Launch { index: 1, .. })));
    assert!(!s.status(1));
    assert_eq!(s.stop(1, G2), StopStep::Done(Outcome::AlreadyStopped));
}

#[test]
fn launch_carries_address_into_outcome() {
    let mut s = supervisor();
    match s.start(0, G1) {
        StartStep::Launch(launch) => assert_eq!(
            launch.record(Ok(1), Some("203.0.113.9".to_string())),
            Ok(Outcome::Started(Some("203.0.113.9".to_string())))
        ),
        StartStep::Done(o) => panic!("expected a launch, got {:?}", o),
    }
    assert!(s.status(0));
}

#[test]
fn handle_for_a_taken_slot_is_handed_back() {
    let mut slot = Some(1u32);
    let launch = Launch { index: 0, recipe: launch_recipe(&java_a()), slot: &mut slot };
    assert_eq!(launch.record(Ok(2), None), Err(2));
    assert_eq!(slot, Some(1));
    let launch = Launch { index: 0, recipe: launch_recipe(&java_a()), slot: &mut slot };
    assert_eq!(
        launch.record(Err("boom".to_string()), None),
        Ok(Outcome::LaunchFailed("boom".to_string()))
    );
    assert_eq!(slot, Some(1));
}

#[test]
fn servers_do_not_share_slots() {
    let mut s = supervisor();
    assert_eq!(start_ok(&mut s, 0, G1, 10), Outcome::Started(None));
    assert!(!s.status(1));
    assert_eq!(start_ok(&mut s, 1, G2, 11), Outcome::Started(None));
    assert_eq!(s.stop(0, G1), StopStep::Shutdown { index: 0, handle: 10 });
    assert!(s.status(1));
    assert_eq!(s.stop(1, G2), StopStep::Shutdown { index: 1, handle: 11 });
}

#[test]
fn registry_slots_are_changed_in_place() {
    let mut r: Registry<String> = Registry::new(3);
    assert_eq!(r.len(), 3);
    assert!(!r.is_running(0));
    assert!(r.get(1).is_none());
    *r.get(1) = Some("handle".to_string());
    assert!(r.is_running(1));
    assert!(!r.is_running(0));
    assert!(!r.is_running(2));
    assert!(!r.is_running(3));
    assert_eq!(r.get(1).take(), Some("handle".to_string()));
    assert!(!r.is_running(1));
    assert_eq!(r.len(), 3);
}

#[test]
fn registry_of_no_slots() {
    let r: Registry<u8> = Registry::new(0);
    assert_eq!(r.len(), 0);
    assert!(!r.is_running(0));
}
