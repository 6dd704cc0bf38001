use gurobi::env::{prepare_client, EnvRep, EnvState, Release};
use gurobi::error::Error;

fn live() -> EnvRep {
    let mut rep = EnvRep::new();
    rep.loaded(0, None).unwrap();
    rep
}

#[test]
fn new_record_is_uninitialized() {
    let rep = EnvRep::new();
    assert_eq!(rep.state(), EnvState::Uninitialized);
    assert_eq!(rep.shares(), 0);
}

#[test]
fn successful_load_makes_one_holder() {
    let rep = live();
    assert_eq!(rep.state(), EnvState::Live);
    assert_eq!(rep.shares(), 1);
}

#[test]
fn failed_load_is_an_api_error_and_nothing_lives() {
    let mut rep = EnvRep::new();
    let r = rep.loaded(10012, Some("Unable to open log file".to_string()));
    assert_eq!(r, Err(Error::FromAPI("Unable to open log file".to_string(), 10012)));
    assert_eq!(rep.state(), EnvState::Uninitialized);
    assert_eq!(rep.shares(), 0);
}

#[test]
fn clone_survives_drop_of_first_holder() {
    let mut rep = live();
    rep.share();
    assert_eq!(rep.release(), Release::Keep);
    assert_eq!(rep.state(), EnvState::Live);
    assert_eq!(rep.shares(), 1);
    assert_eq!(rep.release(), Release::FreeNative);
    assert_eq!(rep.state(), EnvState::Released);
}

#[test]
fn model_outlives_its_environment_value() {
    // the environment value, then a model that holds its own share
    let mut rep = live();
    rep.share();
    // the environment value goes first
    assert_eq!(rep.release(), Release::Keep);
    assert_eq!(rep.state(), EnvState::Live);
    // then the model
    assert_eq!(rep.release(), Release::FreeNative);
}

#[test]
fn all_clones_dropped_frees_exactly_once() {
    let mut rep = live();
    for _ in 0..4 {
        rep.share();
    }
    assert_eq!(rep.shares(), 5);
    let mut frees = 0;
    for _ in 0..5 {
        if rep.release() == Release::FreeNative {
            frees += 1;
        }
    }
    assert_eq!(frees, 1);
    assert_eq!(rep.state(), EnvState::Released);
    assert_eq!(rep.shares(), 0);
}

#[test]
fn client_arguments_are_encoded() {
    let a = prepare_client("", "server1", 61000, "pw", 5, 1.5f64.to_bits()).unwrap();
    assert_eq!(a.logfilename, vec![0u8]);
    assert_eq!(a.computeserver, b"server1\0".to_vec());
    assert_eq!(a.port, 61000);
    assert_eq!(a.password, b"pw\0".to_vec());
    assert_eq!(a.priority, 5);
    assert_eq!(f64::from_bits(a.timeout), 1.5);
}

#[test]
fn client_server_with_nul_is_encoding_error() {
    let r = prepare_client("", "ser\0ver", 61000, "pw", 0, 0);
    assert_eq!(r.err(), Some(Error::NulError(3)));
}

#[test]
fn client_password_with_nul_is_encoding_error() {
    let r = prepare_client("log", "server", 61000, "\0pw", 0, 0);
    assert_eq!(r.err(), Some(Error::NulError(0)));
}

#[test]
fn client_log_path_is_checked_first() {
    let r = prepare_client("l\0", "s\0", 1, "p\0", 0, 0);
    assert_eq!(r.err(), Some(Error::NulError(1)));
}
