use std::cell::Cell;
use std::rc::Rc;

use array_builder::builder::Builder;
use array_builder::construct::build;
use array_builder::construct::build_cloned;
use array_builder::construct::try_build;
use array_builder::generator::Generator;

struct Recorder {
    calls: Vec<usize>,
}

impl Generator<usize> for Recorder {
    fn invoke(&mut self, i: usize) -> usize {
        self.calls.push(i);
        i
    }
}

struct DropTally {
    hits: Rc<Cell<usize>>,
}

impl Drop for DropTally {
    fn drop(&mut self) {
        self.hits.set(self.hits.get() + 1);
    }
}

struct AbortAt {
    fail_at: usize,
    calls: usize,
    hits: Rc<Cell<usize>>,
}

impl Generator<Result<DropTally, &'static str>> for AbortAt {
    fn invoke(&mut self, i: usize) -> Result<DropTally, &'static str> {
        self.calls += 1;
        if i == self.fail_at {
            Err("abort")
        } else {
            Ok(DropTally { hits: Rc::clone(&self.hits) })
        }
    }
}

struct AlwaysOk;

impl Generator<Result<u32, ()>> for AlwaysOk {
    fn invoke(&mut self, i: usize) -> Result<u32, ()> {
        Ok(i as u32 + 10)
    }
}

struct TimesThree;

impl Generator<u64> for TimesThree {
    fn invoke(&mut self, i: usize) -> u64 {
        i as u64 * 3
    }
}

#[test]
fn zero_length_never_invokes() {
    let mut g = Recorder { calls: Vec::new() };
    let r = build(0, &mut g);
    assert_eq!(r, Vec::<usize>::new());
    assert_eq!(g.calls.len(), 0);
}

#[test]
fn side_effects_in_index_order() {
    let mut g = Recorder { calls: Vec::new() };
    let r = build(5, &mut g);
    assert_eq!(r, vec![0, 1, 2, 3, 4]);
    assert_eq!(g.calls, vec![0, 1, 2, 3, 4]);
}

#[test]
fn abort_keeps_no_element() {
    let hits = Rc::new(Cell::new(0));
    let mut g = AbortAt { fail_at: 0, calls: 0, hits: Rc::clone(&hits) };
    let res = try_build(2, &mut g);
    assert!(res.is_err());
    assert_eq!(g.calls, 1);
    assert_eq!(hits.get(), 0);
}

#[test]
fn abort_prefix_cleanup() {
    let hits = Rc::new(Cell::new(0));
    let mut g = AbortAt { fail_at: 3, calls: 0, hits: Rc::clone(&hits) };
    let res = try_build(555, &mut g);
    assert_eq!(res.err(), Some("abort"));
    assert_eq!(g.calls, 4);
    assert_eq!(hits.get(), 3);
}

#[test]
fn fallible_success_yields_all() {
    let mut g = AlwaysOk;
    let res = try_build(4, &mut g);
    assert_eq!(res, Ok(vec![10, 11, 12, 13]));
}

#[test]
fn fallible_zero_is_ok() {
    let hits = Rc::new(Cell::new(0));
    let mut g = AbortAt { fail_at: 0, calls: 0, hits: Rc::clone(&hits) };
    let res = try_build(0, &mut g);
    assert!(res.is_ok());
    assert_eq!(res.unwrap().len(), 0);
    assert_eq!(g.calls, 0);
    assert_eq!(hits.get(), 0);
}

#[test]
fn clone_path_keeps_value() {
    let v = vec![1, 2, 3];
    let r = build_cloned(2, &v);
    assert_eq!(r, vec![vec![1, 2, 3], vec![1, 2, 3]]);
    assert_eq!(v, vec![1, 2, 3]);
}

#[test]
fn large_run_matches_reference() {
    let mut g = TimesThree;
    let r = build(400, &mut g);
    let mut reference: Vec<u64> = Vec::new();
    for i in 0..400u64 {
        reference.push(i * 3);
    }
    assert_eq!(r, reference);
}

#[test]
fn builder_tracks_cursor() {
    let mut b: Builder<String> = Builder::acquire(2);
    assert_eq!(b.cursor(), 0);
    b.write_next(String::from("a"));
    assert_eq!(b.cursor(), 1);
    b.write_next(String::from("b"));
    assert_eq!(b.cursor(), 2);
    let r = b.into_result();
    assert_eq!(r, vec![String::from("a"), String::from("b")]);
}
