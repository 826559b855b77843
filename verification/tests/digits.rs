use seven_segment::{OutputPin, SevenSegmentPins};

struct TestPin(u8);

impl TestPin {
    fn inv(&self) -> u8 {
        if self.0 == 0 {
            1
        // Keep values > 1 in order to detect bugs
        } else if self.0 == 1 {
            0
        } else {
            self.0
        }
    }
}

impl OutputPin for &'_ mut TestPin {
    type Error = ();

    fn is_high(&self) -> bool {
        self.0 == 1
    }

    fn set_high(&mut self) -> Result<(), ()> {
        (*self).0 = 1;
        Ok(())
    }

    fn set_low(&mut self) -> Result<(), ()> {
        (*self).0 = 0;
        Ok(())
    }
}

fn test_digit(digit: u8, expected: (u8, u8, u8, u8, u8, u8, u8)) {
    // We're using 2 to signal uninitialized;
    let mut a = TestPin(2);
    let mut b = TestPin(2);
    let mut c = TestPin(2);
    let mut d = TestPin(2);
    let mut e = TestPin(2);
    let mut f = TestPin(2);
    let mut g = TestPin(2);

    {
        let mut seven_segment = SevenSegmentPins {
            a: &mut a,
            b: &mut b,
            c: &mut c,
            d: &mut d,
            e: &mut e,
            f: &mut f,
            g: &mut g,
        }.with_common_anode();

        seven_segment.set(digit).expect("this can't fail");
    }

    assert_eq!((a.inv(), b.inv(), c.inv(), d.inv(), e.inv(), f.inv(), g.inv()), expected);

    let mut a = TestPin(2);
    let mut b = TestPin(2);
    let mut c = TestPin(2);
    let mut d = TestPin(2);
    let mut e = TestPin(2);
    let mut f = TestPin(2);
    let mut g = TestPin(2);

    {
        let mut seven_segment = SevenSegmentPins {
            a: &mut a,
            b: &mut b,
            c: &mut c,
            d: &mut d,
            e: &mut e,
            f: &mut f,
            g: &mut g,
        }.with_common_cathode();

        seven_segment.set(digit).expect("this can't fail");
    }

    assert_eq!((a.0, b.0, c.0, d.0, e.0, f.0, g.0), expected);
}

#[test]
fn digit_0() {
    test_digit(0, (1, 1, 1, 1, 1, 1, 0));
}

#[test]
fn digit_1() {
    test_digit(1, (0, 1, 1, 0, 0, 0, 0));
}

#[test]
fn digit_2() {
    test_digit(2, (1, 1, 0, 1, 1, 0, 1));
}

#[test]
fn digit_3() {
    test_digit(3, (1, 1, 1, 1, 0, 0, 1));
}

#[test]
fn digit_4() {
    test_digit(4, (0, 1, 1, 0, 0, 1, 1));
}

#[test]
fn digit_5() {
    test_digit(5, (1, 0, 1, 1, 0, 1, 1));
}

#[test]
fn digit_6() {
    test_digit(6, (1, 0, 1, 1, 1, 1, 1));
}

#[test]
fn digit_7() {
    test_digit(7, (1, 1, 1, 0, 0, 0, 0));
}

#[test]
fn digit_8() {
    test_digit(8, (1, 1, 1, 1, 1, 1, 1));
}

#[test]
fn digit_9() {
    test_digit(9, (1, 1, 1, 1, 0, 1, 1));
}

#[test]
fn digit_invalid() {
    test_digit(10, (0, 0, 0, 0, 0, 0, 0));
}
