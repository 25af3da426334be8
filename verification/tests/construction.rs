use array_builder::construct::build;
use array_builder::construct::build_cloned;
use array_builder::generator::Generator;
use array_builder::nested::build_pair_grid;

struct Doubler;

impl Generator<usize> for Doubler {
    fn invoke(&mut self, i: usize) -> usize {
        i * 2
    }
}

struct Identity;

impl Generator<usize> for Identity {
    fn invoke(&mut self, i: usize) -> usize {
        i
    }
}

struct PlusPlus {
    x: i32,
}

impl Generator<i32> for PlusPlus {
    fn invoke(&mut self, _i: usize) -> i32 {
        self.x += 1;
        self.x
    }
}

#[test]
fn simple_array() {
    assert_eq!(build_cloned(5, &3), vec![3, 3, 3, 3, 3]);
}

#[test]
fn callback_array() {
    let mut g = Doubler;
    assert_eq!(build(3, &mut g), vec![0, 2, 4]);
}

#[test]
fn outer_scope() {
    let x = 1;
    assert_eq!(build_cloned(3, &x), vec![1, 1, 1]);
}

#[test]
fn mutability() {
    let mut g = PlusPlus { x: 1 };
    assert_eq!(build(3, &mut g), vec![2, 3, 4]);
}

#[test]
fn big_array() {
    let r = build_cloned(333, &"x");
    assert_eq!(&r as &[_], &["x"; 333] as &[_]);
}

#[test]
fn macro_within_macro() {
    assert_eq!(
        build_pair_grid(3, 2),
        vec![vec![(0, 0), (0, 1)], vec![(1, 0), (1, 1)], vec![(2, 0), (2, 1)]]
    );
}

#[test]
fn const_expr() {
    const TWO: usize = 2;
    let mut g = Identity;
    assert_eq!(build(2 + TWO, &mut g), vec![0, 1, 2, 3]);
}
