use camino_tempfile::error::{Error, ErrorKind};
use camino_tempfile::util::{
    after_attempt, create_helper, create_with_budget, retry_budget, too_many, Next,
};
use camino_tempfile::{NUM_RAND_CHARS, NUM_RETRIES};
use std::cell::{Cell, RefCell};

fn taken() -> Error {
    Error::new(ErrorKind::AlreadyExists, "taken")
}

#[test]
fn budget_is_the_constant_for_random_names_and_one_for_fixed_names() {
    assert_eq!(NUM_RETRIES, 1 << 31);
    assert_eq!(NUM_RAND_CHARS, 6);
    assert_eq!(retry_budget(0), 1);
    assert_eq!(retry_budget(1), 1 << 31);
    assert_eq!(retry_budget(6), 1 << 31);
    assert_eq!(retry_budget(usize::MAX), 1 << 31);
}

#[test]
fn fixed_name_is_tried_once_when_it_collides() {
    let calls = Cell::new(0u32);
    let r: Result<(), Error> = create_helper("/base", "lock", ".pid", 0, |_path| {
        calls.set(calls.get() + 1);
        Err(taken())
    });
    assert_eq!(calls.get(), 1);
    let e = r.unwrap_err();
    assert_eq!(e.kind(), ErrorKind::AlreadyExists);
    assert_eq!(e.message(), "taken");
    assert_eq!(e.path(), None);
}

#[test]
fn fixed_name_is_tried_once_when_it_succeeds() {
    let calls = Cell::new(0u32);
    let r: Result<String, Error> = create_helper("/base", "lock", ".pid", 0, |path| {
        calls.set(calls.get() + 1);
        Ok(path)
    });
    assert_eq!(calls.get(), 1);
    assert_eq!(r.unwrap(), "/base/lock.pid");
}

#[test]
fn fixed_name_is_tried_once_when_it_fails_otherwise() {
    let calls = Cell::new(0u32);
    let r: Result<(), Error> = create_helper("/base", "lock", "", 0, |_path| {
        calls.set(calls.get() + 1);
        Err(Error::new(ErrorKind::AddrInUse, "bound"))
    });
    assert_eq!(calls.get(), 1);
    assert_eq!(r.unwrap_err().kind(), ErrorKind::AddrInUse);
}

#[test]
fn collisions_are_retried_until_a_name_is_free() {
    let calls = Cell::new(0u32);
    let r: Result<String, Error> = create_helper("/base", ".tmp", "", 6, |path| {
        calls.set(calls.get() + 1);
        if calls.get() <= 3 {
            Err(taken())
        } else {
            Ok(path)
        }
    });
    assert_eq!(calls.get(), 4);
    let path = r.unwrap();
    assert!(path.starts_with("/base/.tmp"));
    assert_eq!(path.len(), "/base/.tmp".len() + 6);
}

#[test]
fn address_in_use_is_retried_too() {
    let calls = Cell::new(0u32);
    let r: Result<u32, Error> = create_helper("/run", "sock", "", 4, |_path| {
        calls.set(calls.get() + 1);
        if calls.get() == 1 {
            Err(Error::new(ErrorKind::AddrInUse, "bound"))
        } else {
            Ok(calls.get())
        }
    });
    assert_eq!(r.unwrap(), 2);
}

#[test]
fn other_failures_end_the_loop_at_once_and_come_back_unchanged() {
    let kinds = [
        ErrorKind::PermissionDenied,
        ErrorKind::StorageFull,
        ErrorKind::NotFound,
        ErrorKind::NotADirectory,
        ErrorKind::CrossesDevices,
        ErrorKind::Other,
    ];
    for kind in kinds {
        let calls = Cell::new(0u32);
        let r: Result<(), Error> = create_helper("/base", ".tmp", "", 6, |path| {
            calls.set(calls.get() + 1);
            Err(Error::new(kind, "refused").with_path(&path))
        });
        assert_eq!(calls.get(), 1);
        let e = r.unwrap_err();
        assert_eq!(e.kind(), kind);
        assert_eq!(e.message(), "refused");
        assert!(e.path().unwrap().starts_with("/base/.tmp"));
        assert_eq!(e.paths().len(), 1);
    }
}

#[test]
fn failure_after_collisions_is_returned() {
    let calls = Cell::new(0u32);
    let r: Result<(), Error> = create_helper("/base", ".tmp", "", 6, |_path| {
        calls.set(calls.get() + 1);
        if calls.get() < 3 {
            Err(taken())
        } else {
            Err(Error::new(ErrorKind::ReadOnlyFilesystem, "read-only"))
        }
    });
    assert_eq!(calls.get(), 3);
    assert_eq!(r.unwrap_err().kind(), ErrorKind::ReadOnlyFilesystem);
}

#[test]
fn always_colliding_uses_the_whole_budget_and_then_fails() {
    let calls = Cell::new(0u32);
    let r: Result<(), Error> = create_with_budget("/base/dir", ".tmp", "", 6, 5, |_path| {
        calls.set(calls.get() + 1);
        Err(taken())
    });
    assert_eq!(calls.get(), 5);
    let e = r.unwrap_err();
    assert_eq!(e.kind(), ErrorKind::AlreadyExists);
    assert_eq!(e.message(), "too many temporary files exist");
    assert_eq!(e.path(), Some("/base/dir"));
    assert_eq!(e.paths().len(), 1);
}

#[test]
fn always_colliding_on_a_large_budget() {
    let calls = Cell::new(0u32);
    let r: Result<(), Error> = create_with_budget("/base", "x", "", 3, 20_000, |_path| {
        calls.set(calls.get() + 1);
        Err(Error::new(ErrorKind::AddrInUse, "bound"))
    });
    assert_eq!(calls.get(), 20_000);
    assert_eq!(r.unwrap_err().kind(), ErrorKind::AlreadyExists);
}

#[test]
fn budget_of_one_returns_a_collision_as_it_is() {
    let calls = Cell::new(0u32);
    let r: Result<(), Error> = create_with_budget("/base", ".tmp", "", 6, 1, |_path| {
        calls.set(calls.get() + 1);
        Err(taken())
    });
    assert_eq!(calls.get(), 1);
    let e = r.unwrap_err();
    assert_eq!(e.message(), "taken");
    assert_eq!(e.path(), None);
}

#[test]
fn budget_of_zero_fails_without_an_attempt() {
    let calls = Cell::new(0u32);
    let r: Result<(), Error> = create_with_budget("/base", ".tmp", "", 6, 0, |_path| {
        calls.set(calls.get() + 1);
        Ok(())
    });
    assert_eq!(calls.get(), 0);
    let e = r.unwrap_err();
    assert_eq!(e.kind(), ErrorKind::AlreadyExists);
    assert_eq!(e.message(), "too many temporary files exist");
    assert_eq!(e.path(), Some("/base"));
}

#[test]
fn every_attempt_gets_a_candidate_under_the_base_and_a_fresh_name() {
    let seen = RefCell::new(Vec::new());
    let r: Result<(), Error> = create_with_budget("/base/dir", "in-", ".part", 16, 8, |path| {
        seen.borrow_mut().push(path);
        Err(taken())
    });
    assert!(r.is_err());
    let seen = seen.into_inner();
    assert_eq!(seen.len(), 8);
    for path in &seen {
        let name = path.strip_prefix("/base/dir/").unwrap();
        assert_eq!(name.len(), 3 + 16 + 5);
        assert!(name.starts_with("in-"));
        assert!(name.ends_with(".part"));
        assert!(name[3..19].chars().all(|c| c.is_ascii_alphanumeric()));
    }
    for i in 0..seen.len() {
        for j in 0..i {
            assert_ne!(seen[i], seen[j]);
        }
    }
}

#[test]
fn candidate_is_joined_to_a_base_that_ends_in_a_separator() {
    let r: Result<String, Error> = create_helper("/base/", "a", "b", 0, Ok);
    assert_eq!(r.unwrap(), "/base/ab");
}

#[test]
fn candidate_under_a_relative_base_stays_relative() {
    let r: Result<String, Error> = create_helper("scratch", "a", "b", 0, Ok);
    assert_eq!(r.unwrap(), "scratch/ab");
}

#[test]
fn too_many_is_the_exhaustion_error() {
    let e = too_many("/base/dir");
    assert_eq!(e.kind(), ErrorKind::AlreadyExists);
    assert_eq!(e.message(), "too many temporary files exist");
    assert_eq!(*e.paths(), vec!["/base/dir".to_string()]);
}

#[test]
fn success_ends_the_loop() {
    for (tries, budget) in [(1, 1), (1, 5), (3, 5), (5, 5)] {
        match after_attempt(Ok::<u8, Error>(7), tries, budget, "/base") {
            Next::Done(Ok(value)) => assert_eq!(value, 7),
            other => panic!("{:?}", other),
        }
    }
}

#[test]
fn collision_is_tried_again_while_the_budget_lasts() {
    for kind in [ErrorKind::AlreadyExists, ErrorKind::AddrInUse] {
        for (tries, budget) in [(1, 2), (1, 5), (4, 5), (1, 1 << 31), ((1 << 31) - 1, 1 << 31)] {
            let next = after_attempt(Err::<u8, Error>(Error::new(kind, "taken")), tries, budget, "/base");
            assert!(matches!(next, Next::Again), "{:?}", next);
        }
    }
}

#[test]
fn collision_on_the_last_attempt_ends_the_loop_with_exhaustion() {
    for kind in [ErrorKind::AlreadyExists, ErrorKind::AddrInUse] {
        for budget in [2, 5, 1 << 31] {
            match after_attempt(Err::<u8, Error>(Error::new(kind, "taken")), budget, budget, "/base") {
                Next::Done(Err(e)) => {
                    assert_eq!(e.kind(), ErrorKind::AlreadyExists);
                    assert_eq!(e.message(), "too many temporary files exist");
                    assert_eq!(e.path(), Some("/base"));
                }
                other => panic!("{:?}", other),
            }
        }
    }
}

#[test]
fn collision_under_a_budget_of_one_is_returned_as_it_is() {
    match after_attempt(Err::<u8, Error>(taken()), 1, 1, "/base") {
        Next::Done(Err(e)) => {
            assert_eq!(e.kind(), ErrorKind::AlreadyExists);
            assert_eq!(e.message(), "taken");
            assert_eq!(e.path(), None);
        }
        other => panic!("{:?}", other),
    }
}

#[test]
fn other_failure_ends_the_loop_and_is_returned_as_it_is() {
    for (tries, budget) in [(1, 1), (1, 5), (5, 5)] {
        let refused = Error::new(ErrorKind::PermissionDenied, "refused").with_path("/base/x");
        match after_attempt(Err::<u8, Error>(refused), tries, budget, "/base") {
            Next::Done(Err(e)) => {
                assert_eq!(e.kind(), ErrorKind::PermissionDenied);
                assert_eq!(e.message(), "refused");
                assert_eq!(e.path(), Some("/base/x"));
            }
            other => panic!("{:?}", other),
        }
    }
}
