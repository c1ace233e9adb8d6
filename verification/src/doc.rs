//! Serialization of a finalized stroke: decimal rendering of coordinates,
//! the SVG path document, and the per-stroke filename.
//!
//! The document declares a canvas sized to the stroke's bounding box and
//! holds exactly one open path: an absolute move to the first normalized
//! point, then a straight line command to each subsequent point, in capture
//! order, with no fill and a single solid stroke color.

use vstd::prelude::*;
use vstd::string::StringExecFns;
use crate::geom::Point;

verus! {

/// The decimal digit character for one digit value.
pub open spec fn digit_char(d: nat) -> char {
    if d == 0 {
        '0'
    } else if d == 1 {
        '1'
    } else if d == 2 {
        '2'
    } else if d == 3 {
        '3'
    } else if d == 4 {
        '4'
    } else if d == 5 {
        '5'
    } else if d == 6 {
        '6'
    } else if d == 7 {
        '7'
    } else if d == 8 {
        '8'
    } else {
        '9'
    }
}

/// The usual decimal rendering of a non-negative integer: most significant
/// digit first, no leading zeros, zero itself rendered as one digit.
pub open spec fn dec_chars(n: nat) -> Seq<char>
    decreases n,
{
    if n < 10 {
        seq![digit_char(n)]
    } else {
        dec_chars(n / 10) + seq![digit_char(n % 10)]
    }
}

/// The serialized coordinate pair of one normalized point.
pub open spec fn pair_chars(p: Point) -> Seq<char> {
    dec_chars(p.x as nat) + " "@ + dec_chars(p.y as nat)
}

/// The path data over the first `j` normalized points: an absolute move to
/// the first pair, then a line command to each subsequent pair, in order.
pub open spec fn path_prefix_chars(norm: Seq<Point>, j: int) -> Seq<char>
    decreases j,
{
    if j <= 0 {
        Seq::empty()
    } else if j == 1 {
        "M "@ + pair_chars(norm[0])
    } else {
        path_prefix_chars(norm, j - 1) + " L "@ + pair_chars(norm[j - 1])
    }
}

/// The full serialized document for a normalized stroke on a canvas of
/// width `w` and height `h`.
pub open spec fn document_chars(w: nat, h: nat, norm: Seq<Point>) -> Seq<char> {
    "<svg xmlns='http://www.w3.org/2000/svg' width='"@ + dec_chars(w) + "' height='"@ + dec_chars(
        h,
    ) + "'><path d='"@ + path_prefix_chars(norm, norm.len() as int)
        + "' fill='none' stroke='black'/></svg>"@
}

/// The filename of the stroke named `index`: a sequential integer embedded
/// in a fixed path under the output subdirectory.
pub open spec fn filename_chars(index: nat) -> Seq<char> {
    "assets/svgs/drawing"@ + dec_chars(index) + ".svg"@
}

/// Distinct digit values render as distinct digit characters.
proof fn lemma_digit_char_injective(a: nat, b: nat)
    requires
        a < 10,
        b < 10,
        digit_char(a) == digit_char(b),
    ensures
        a == b,
{
}

/// A decimal rendering has at least one character.
proof fn lemma_dec_chars_len(n: nat)
    ensures
        dec_chars(n).len() >= 1,
    decreases n,
{
    if n >= 10 {
        lemma_dec_chars_len(n / 10);
    }
}

/// Distinct numbers render as distinct decimal strings.
proof fn lemma_dec_chars_injective(a: nat, b: nat)
    requires
        dec_chars(a) == dec_chars(b),
    ensures
        a == b,
    decreases a,
{
    lemma_dec_chars_len(a);
    lemma_dec_chars_len(b);
    if a < 10 && b < 10 {
        assert(dec_chars(a)[0] == digit_char(a));
        assert(dec_chars(b)[0] == digit_char(b));
        lemma_digit_char_injective(a, b);
    } else if a < 10 {
        lemma_dec_chars_len(b / 10);
        assert(dec_chars(b).len() >= 2);
    } else if b < 10 {
        lemma_dec_chars_len(a / 10);
        assert(dec_chars(a).len() >= 2);
    } else {
        let qa = dec_chars(a / 10);
        let qb = dec_chars(b / 10);
        assert(dec_chars(a) == qa + seq![digit_char(a % 10)]);
        assert(dec_chars(b) == qb + seq![digit_char(b % 10)]);
        assert(qa.len() == qb.len());
        assert(dec_chars(a)[qa.len() as int] == digit_char(a % 10));
        assert(dec_chars(b)[qb.len() as int] == digit_char(b % 10));
        lemma_digit_char_injective(a % 10, b % 10);
        assert(qa =~= dec_chars(a).subrange(0, qa.len() as int));
        assert(qb =~= dec_chars(b).subrange(0, qb.len() as int));
        lemma_dec_chars_injective(a / 10, b / 10);
        vstd::arithmetic::div_mod::lemma_fundamental_div_mod(a as int, 10);
        vstd::arithmetic::div_mod::lemma_fundamental_div_mod(b as int, 10);
    }
}

/// The stroke counter uniquely names finalized documents: distinct stroke
/// indices yield distinct filenames.
pub proof fn lemma_filename_injective(a: nat, b: nat)
    requires
        filename_chars(a) == filename_chars(b),
    ensures
        a == b,
{
    let head = "assets/svgs/drawing"@;
    let tail = ".svg"@;
    let da = dec_chars(a);
    let db = dec_chars(b);
    assert(filename_chars(a) == head + da + tail);
    assert(filename_chars(b) == head + db + tail);
    assert(da.len() == db.len());
    assert(da =~= filename_chars(a).subrange(
        head.len() as int,
        head.len() + da.len() as int,
    ));
    assert(db =~= filename_chars(b).subrange(
        head.len() as int,
        head.len() + db.len() as int,
    ));
    lemma_dec_chars_injective(a, b);
}

/// The one-character string for a decimal digit.
fn digit_str(d: u64) -> (s: &'static str)
    requires
        d < 10,
    ensures
        s@ == seq![digit_char(d as nat)],
{
    let s: &'static str = if d == 0 {
        "0"
    } else if d == 1 {
        "1"
    } else if d == 2 {
        "2"
    } else if d == 3 {
        "3"
    } else if d == 4 {
        "4"
    } else if d == 5 {
        "5"
    } else if d == 6 {
        "6"
    } else if d == 7 {
        "7"
    } else if d == 8 {
        "8"
    } else {
        "9"
    };
    proof {
        reveal_strlit("0");
        reveal_strlit("1");
        reveal_strlit("2");
        reveal_strlit("3");
        reveal_strlit("4");
        reveal_strlit("5");
        reveal_strlit("6");
        reveal_strlit("7");
        reveal_strlit("8");
        reveal_strlit("9");
        assert(s@ =~= seq![digit_char(d as nat)]);
    }
    s
}

/// Append the decimal rendering of `n` to `out`.
fn push_dec(out: &mut String, n: u64)
    ensures
        final(out)@ == old(out)@ + dec_chars(n as nat),
    decreases n,
{
    if n >= 10 {
        push_dec(out, n / 10);
        let d = digit_str(n % 10);
        out.append(d);
        proof {
            assert(out@ =~= old(out)@ + dec_chars(n as nat));
        }
    } else {
        let d = digit_str(n);
        out.append(d);
    }
}

/// Append the serialized pair of one normalized point to `out`.
fn push_pair(out: &mut String, p: Point)
    requires
        0 <= p.x,
        0 <= p.y,
    ensures
        final(out)@ == old(out)@ + pair_chars(p),
{
    push_dec(out, p.x as u64);
    out.append(" ");
    push_dec(out, p.y as u64);
    proof {
        assert(out@ =~= old(out)@ + pair_chars(p));
    }
}

/// Serialize the SVG path document for a normalized stroke on a canvas of
/// width `w` and height `h`.
pub fn render_document(w: u64, h: u64, norm: &Vec<Point>) -> (doc: String)
    requires
        norm@.len() > 0,
        forall|i: int| 0 <= i < norm@.len() ==> 0 <= #[trigger] norm@[i].x && 0 <= norm@[i].y,
    ensures
        doc@ == document_chars(w as nat, h as nat, norm@),
{
    let ghost head: Seq<char> = "<svg xmlns='http://www.w3.org/2000/svg' width='"@ + dec_chars(
        w as nat,
    ) + "' height='"@ + dec_chars(h as nat) + "'><path d='"@;
    let mut doc = String::new();
    doc.append("<svg xmlns='http://www.w3.org/2000/svg' width='");
    push_dec(&mut doc, w);
    doc.append("' height='");
    push_dec(&mut doc, h);
    doc.append("'><path d='");
    doc.append("M ");
    push_pair(&mut doc, norm[0]);
    proof {
        assert(doc@ =~= head + path_prefix_chars(norm@, 1));
    }
    let mut j: usize = 1;
    while j < norm.len()
        invariant
            1 <= j <= norm@.len(),
            forall|i: int| 0 <= i < norm@.len() ==> 0 <= #[trigger] norm@[i].x && 0 <= norm@[i].y,
            doc@ == head + path_prefix_chars(norm@, j as int),
        decreases norm@.len() - j,
    {
        doc.append(" L ");
        push_pair(&mut doc, norm[j]);
        j = j + 1;
        proof {
            assert(doc@ =~= head + path_prefix_chars(norm@, j as int));
        }
    }
    doc.append("' fill='none' stroke='black'/></svg>");
    proof {
        assert(doc@ =~= document_chars(w as nat, h as nat, norm@));
    }
    doc
}

/// The filename for the stroke named `index`.
pub fn render_filename(index: u64) -> (name: String)
    ensures
        name@ == filename_chars(index as nat),
{
    let mut name = String::new();
    name.append("assets/svgs/drawing");
    push_dec(&mut name, index);
    name.append(".svg");
    proof {
        assert(name@ =~= filename_chars(index as nat));
    }
    name
}

} // verus!
