//! The text of the instructions that set the opacity of windows.

use crate::config::Opacity;
use vstd::prelude::*;
use vstd::string::StringExecFns;

verus! {

/// The character that stands for a decimal digit.
pub open spec fn digit_char(d: int) -> char {
    if d == 0 {
        '0'
    } else if d == 1 {
        '1'
    } else if d == 2 {
        '2'
    } else if d == 3 {
        '3'
    } else if d == 4 {
        '4'
    } else if d == 5 {
        '5'
    } else if d == 6 {
        '6'
    } else if d == 7 {
        '7'
    } else if d == 8 {
        '8'
    } else {
        '9'
    }
}

/// A natural number in decimal, without leading zeros.
pub open spec fn decimal_nat(n: nat) -> Seq<char>
    decreases n,
{
    if n < 10 {
        seq![digit_char(n as int)]
    } else {
        decimal_nat(n / 10).push(digit_char((n % 10) as int))
    }
}

/// An integer in decimal, with a minus sign before a negative one.
pub open spec fn decimal(n: int) -> Seq<char> {
    if n < 0 {
        seq!['-'] + decimal_nat((-n) as nat)
    } else {
        decimal_nat(n as nat)
    }
}

/// The instruction that gives one window an opacity, the opacity being
/// already written out as text.
pub open spec fn assignment(window: i64, opacity: Seq<char>) -> Seq<char> {
    "[con_id="@ + decimal(window as int) + "] opacity "@ + opacity
}

/// One instruction for a whole set of windows: an assignment for each, in
/// order, each closed by a semicolon.
pub open spec fn batch_text(windows: Seq<i64>, opacity: Seq<char>) -> Seq<char>
    decreases windows.len(),
{
    if windows.len() == 0 {
        Seq::empty()
    } else {
        batch_text(windows.drop_last(), opacity) + assignment(windows.last(), opacity) + ";"@
    }
}

fn digit_str(d: u64) -> (r: &'static str)
    requires
        d < 10,
    ensures
        r@ == seq![digit_char(d as int)],
{
    proof {
        reveal_strlit("0");
        reveal_strlit("1");
        reveal_strlit("2");
        reveal_strlit("3");
        reveal_strlit("4");
        reveal_strlit("5");
        reveal_strlit("6");
        reveal_strlit("7");
        reveal_strlit("8");
        reveal_strlit("9");
    }
    let r = if d == 0 {
        "0"
    } else if d == 1 {
        "1"
    } else if d == 2 {
        "2"
    } else if d == 3 {
        "3"
    } else if d == 4 {
        "4"
    } else if d == 5 {
        "5"
    } else if d == 6 {
        "6"
    } else if d == 7 {
        "7"
    } else if d == 8 {
        "8"
    } else {
        "9"
    };
    r
}

fn push_decimal_nat(out: &mut String, n: u64)
    ensures
        final(out)@ == old(out)@ + decimal_nat(n as nat),
    decreases n,
{
    if n >= 10 {
        push_decimal_nat(out, n / 10);
    }
    out.append(digit_str(n % 10));
    proof {
        if n >= 10 {
        }
    }
}

/// Appends an integer in decimal.
pub fn push_decimal(out: &mut String, n: i64)
    ensures
        final(out)@ == old(out)@ + decimal(n as int),
{
    if n < 0 {
        out.append("-");
        let magnitude: u64 = if n == i64::MIN {
            0x8000_0000_0000_0000u64
        } else {
            (-n) as u64
        };
        push_decimal_nat(out, magnitude);
        proof {
            reveal_strlit("-");
        }
    } else {
        push_decimal_nat(out, n as u64);
    }
}

/// Appends the instruction that gives one window an opacity.
pub fn push_assignment(out: &mut String, window: i64, opacity: &str)
    ensures
        final(out)@ == old(out)@ + assignment(window, opacity@),
{
    out.append("[con_id=");
    push_decimal(out, window);
    out.append("] opacity ");
    out.append(opacity);
}

/// The one instruction that gives each of `windows` the opacity written out
/// in `opacity`. For no windows it is the empty instruction.
pub fn set_windows_opacity_to(windows: &Vec<i64>, opacity: &str) -> (r: String)
    ensures
        r@ == batch_text(windows@, opacity@),
{
    let mut cmd = String::new();
    let mut i: usize = 0;
    while i < windows.len()
        invariant
            i <= windows.len(),
            cmd@ == batch_text(windows@.take(i as int), opacity@),
        decreases windows.len() - i,
    {
        push_assignment(&mut cmd, windows[i], opacity);
        cmd.append(";");
        proof {
            assert(windows@.take(i + 1).drop_last() =~= windows@.take(i as int));
        }
        i += 1;
    }
    proof {
        assert(windows@.take(windows.len() as int) =~= windows@);
    }
    cmd
}

/// An order to the window manager as a mathematical value.
pub enum Order {
    /// One window, addressed on its own.
    Single { window: i64, opacity: Opacity },
    /// Any number of windows, addressed in one round trip.
    Batch { windows: Seq<i64>, opacity: Opacity },
}

impl Order {
    /// The opacity that the order assigns.
    pub open spec fn opacity(self) -> Opacity {
        match self {
            Order::Single { opacity, .. } => opacity,
            Order::Batch { opacity, .. } => opacity,
        }
    }

    /// The order as the window manager reads it, given its opacity written
    /// out as text.
    pub open spec fn text(self, opacity: Seq<char>) -> Seq<char> {
        match self {
            Order::Single { window, .. } => assignment(window, opacity),
            Order::Batch { windows, .. } => batch_text(windows, opacity),
        }
    }
}

/// An order to the window manager, with the opacity still a number.
#[derive(Debug, PartialEq, Eq)]
pub enum Instruction {
    /// One window, addressed on its own.
    Single { window: i64, opacity: Opacity },
    /// Any number of windows, addressed in one round trip.
    Batch { windows: Vec<i64>, opacity: Opacity },
}

impl View for Instruction {
    type V = Order;

    open spec fn view(&self) -> Order {
        match *self {
            Instruction::Single { window, opacity } => Order::Single { window, opacity },
            Instruction::Batch { windows, opacity } => Order::Batch { windows: windows@, opacity },
        }
    }
}

/// The orders that a list of instructions stands for.
pub open spec fn orders_of(instructions: Seq<Instruction>) -> Seq<Order> {
    Seq::new(instructions.len(), |i: int| instructions[i]@)
}

impl Instruction {
    /// The opacity that the order assigns.
    pub fn opacity(&self) -> (r: Opacity)
        ensures
            r == self@.opacity(),
    {
        match self {
            Instruction::Single { opacity, .. } => *opacity,
            Instruction::Batch { opacity, .. } => *opacity,
        }
    }

    /// The order as the window manager reads it. `opacity` is the order's
    /// opacity written out as text.
    pub fn command(&self, opacity: &str) -> (r: String)
        ensures
            r@ == self@.text(opacity@),
    {
        match self {
            Instruction::Single { window, .. } => {
                let mut cmd = String::new();
                push_assignment(&mut cmd, *window, opacity);
                cmd
            },
            Instruction::Batch { windows, .. } => set_windows_opacity_to(windows, opacity),
        }
    }
}

} // verus!
