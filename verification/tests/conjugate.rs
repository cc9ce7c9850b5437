use complex::Complex;

// An exact rectangular carrier, enough to exercise the shared capability.
#[derive(Clone, Copy, Debug, PartialEq)]
struct ExactRectangular {
    re: i64,
    im: i64,
}

impl Complex for ExactRectangular {
    fn conjugate(&self) -> Self {
        ExactRectangular { re: self.re, im: -self.im }
    }
}

#[test]
fn conjugate_negates_the_imaginary_component() {
    let x = ExactRectangular { re: 3, im: -4 };
    assert_eq!(x.conjugate(), ExactRectangular { re: 3, im: 4 });
}

#[test]
fn conjugate_twice_restores_the_value() {
    let x = ExactRectangular { re: -1, im: 7 };
    assert_eq!(x.conjugate().conjugate(), x);
}
