//! Decimal text for integers, and the trait through which a value writes
//! itself into a line of output.

use vstd::prelude::*;
use vstd::string::StringExecFns;

verus! {

/// The character for one decimal digit.
pub open spec fn digit(d: int) -> char
    recommends
        0 <= d < 10,
{
    seq!['0', '1', '2', '3', '4', '5', '6', '7', '8', '9'][d]
}

/// The decimal numeral of `n`, most significant digit first, without
/// leading zeros.
pub open spec fn unsigned_text(n: nat) -> Seq<char>
    decreases n,
{
    if n < 10 {
        seq![digit(n as int)]
    } else {
        unsigned_text(n / 10).push(digit((n % 10) as int))
    }
}

/// The decimal numeral of `n`, with a minus sign in front where `n` is
/// negative.
pub open spec fn signed_text(n: int) -> Seq<char> {
    if n < 0 {
        seq!['-'] + unsigned_text((-n) as nat)
    } else {
        unsigned_text(n as nat)
    }
}

/// The text of a truth value.
pub open spec fn bool_text(b: bool) -> Seq<char> {
    if b {
        "true"@
    } else {
        "false"@
    }
}

fn digit_str(d: u64) -> (s: &'static str)
    requires
        d < 10,
    ensures
        s@ == seq![digit(d as int)],
{
    let s = match d {
        0 => "0",
        1 => "1",
        2 => "2",
        3 => "3",
        4 => "4",
        5 => "5",
        6 => "6",
        7 => "7",
        8 => "8",
        _ => "9",
    };
    proof {
        reveal_strlit("0");
        reveal_strlit("1");
        reveal_strlit("2");
        reveal_strlit("3");
        reveal_strlit("4");
        reveal_strlit("5");
        reveal_strlit("6");
        reveal_strlit("7");
        reveal_strlit("8");
        reveal_strlit("9");
    }
    s
}

/// Appends the decimal numeral of `n` to `f`.
pub fn write_unsigned(n: u64, f: &mut String)
    ensures
        final(f)@ == old(f)@ + unsigned_text(n as nat),
    decreases n,
{
    if n >= 10 {
        write_unsigned(n / 10, f);
    }
    f.append(digit_str(n % 10));
}

/// Appends the decimal numeral of `n` to `f`, with its sign where it is
/// negative.
pub fn write_signed(n: i64, f: &mut String)
    ensures
        final(f)@ == old(f)@ + signed_text(n as int),
{
    if n < 0 {
        f.append("-");
        proof {
            reveal_strlit("-");
        }
        let magnitude: u64 = if n == i64::MIN {
            9223372036854775808u64
        } else {
            (-n) as u64
        };
        write_unsigned(magnitude, f);
    } else {
        write_unsigned(n as u64, f);
    }
}

/// A value that can write itself into a line of text.
pub trait Printable {
    /// The text that stands for this value.
    spec fn text(&self) -> Seq<char>;

    /// Appends the value's text to `f`.
    fn fmt(&self, f: &mut String)
        ensures
            final(f)@ == old(f)@ + self.text(),
    ;
}

impl Printable for u8 {
    open spec fn text(&self) -> Seq<char> {
        unsigned_text(*self as nat)
    }

    fn fmt(&self, f: &mut String) {
        write_unsigned(*self as u64, f);
    }
}

impl Printable for u32 {
    open spec fn text(&self) -> Seq<char> {
        unsigned_text(*self as nat)
    }

    fn fmt(&self, f: &mut String) {
        write_unsigned(*self as u64, f);
    }
}

impl Printable for usize {
    open spec fn text(&self) -> Seq<char> {
        unsigned_text(*self as nat)
    }

    fn fmt(&self, f: &mut String) {
        write_unsigned(*self as u64, f);
    }
}

impl Printable for i32 {
    open spec fn text(&self) -> Seq<char> {
        signed_text(*self as int)
    }

    fn fmt(&self, f: &mut String) {
        write_signed(*self as i64, f);
    }
}

impl Printable for bool {
    open spec fn text(&self) -> Seq<char> {
        bool_text(*self)
    }

    fn fmt(&self, f: &mut String) {
        if *self {
            f.append("true");
        } else {
            f.append("false");
        }
    }
}

impl<'a> Printable for &'a str {
    open spec fn text(&self) -> Seq<char> {
        self@
    }

    fn fmt(&self, f: &mut String) {
        f.append(*self);
    }
}

impl Printable for String {
    open spec fn text(&self) -> Seq<char> {
        self@
    }

    fn fmt(&self, f: &mut String) {
        f.append(self.as_str());
    }
}

/// The texts in `parts`, in order, with a comma and a space between each two
/// neighbours.
pub open spec fn joined(parts: Seq<Seq<char>>) -> Seq<char>
    decreases parts.len(),
{
    if parts.len() == 0 {
        Seq::empty()
    } else if parts.len() == 1 {
        parts[0]
    } else {
        joined(parts.drop_last()) + ", "@ + parts.last()
    }
}

/// The texts of the items of `items`, in order.
pub open spec fn texts<T: Printable>(items: Seq<T>) -> Seq<Seq<char>> {
    Seq::new(items.len(), |i: int| items[i].text())
}

/// A list writes its items between square brackets, separated by a comma and
/// a space.
impl<T: Printable> Printable for Vec<T> {
    open spec fn text(&self) -> Seq<char> {
        "["@ + joined(texts(self@)) + "]"@
    }

    fn fmt(&self, f: &mut String) {
        f.append("[");
        let mut i: usize = 0;
        while i < self.len()
            invariant
                i <= self.len(),
                f@ == old(f)@ + "["@ + joined(texts(self@.take(i as int))),
            decreases self.len() - i,
        {
            if i > 0 {
                f.append(", ");
            }
            self[i].fmt(f);
            proof {
                let before = texts(self@.take(i as int));
                let after = texts(self@.take(i + 1));
                assert(after.drop_last() =~= before);
            }
            i += 1;
        }
        assert(self@.take(i as int) =~= self@);
        f.append("]");
    }
}

} // verus!
