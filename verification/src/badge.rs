//! The badge renderer: a pure map from a non-negative count to an SVG status
//! badge. The layout is digit-count driven: the value segment is
//! `digits * 8 + 10` pixels wide next to a fixed 60-pixel label segment, and
//! the value text is anchored at the centre of the value segment in a 10x
//! fixed-point coordinate scale, so centering is exact in integer arithmetic.

use vstd::prelude::*;
use vstd::string::*;

verus! {

/// The character for one decimal digit.
pub open spec fn digit_char(d: nat) -> char
    recommends
        d < 10,
{
    if d == 0 {
        '0'
    } else if d == 1 {
        '1'
    } else if d == 2 {
        '2'
    } else if d == 3 {
        '3'
    } else if d == 4 {
        '4'
    } else if d == 5 {
        '5'
    } else if d == 6 {
        '6'
    } else if d == 7 {
        '7'
    } else if d == 8 {
        '8'
    } else {
        '9'
    }
}

/// The canonical decimal representation of `n`: most significant digit first,
/// no leading zeros, no grouping separators; `0` is the one character `'0'`.
pub open spec fn dec_digits(n: nat) -> Seq<char>
    decreases n,
{
    if n < 10 {
        seq![digit_char(n)]
    } else {
        dec_digits(n / 10).push(digit_char(n % 10))
    }
}

/// How many digits the canonical decimal representation of `n` has.
pub open spec fn num_digits(n: nat) -> nat
    decreases n,
{
    if n < 10 {
        1
    } else {
        1 + num_digits(n / 10)
    }
}

/// The width formulas below count digits with `num_digits`; this ties that
/// count to what it stands for, the length of the decimal string itself.
pub proof fn lemma_dec_digits_len(n: nat)
    ensures
        dec_digits(n).len() == num_digits(n),
    decreases n,
{
    if n >= 10 {
        lemma_dec_digits_len(n / 10);
    }
}

/// `10^k`, used to bound the digit count of a machine integer.
pub open spec fn pow10(k: nat) -> nat
    decreases k,
{
    if k == 0 {
        1
    } else {
        10 * pow10((k - 1) as nat)
    }
}

/// A number below `10^k` has at most `k` digits.
pub proof fn lemma_num_digits_bound(n: nat, k: nat)
    requires
        k >= 1,
        n < pow10(k),
    ensures
        num_digits(n) <= k,
    decreases k,
{
    if n >= 10 {
        if k == 1 {
            assert(pow10(1) == 10 * pow10(0));
            assert(false);
        }
        assert(pow10(k) == 10 * pow10((k - 1) as nat));
        assert(n / 10 < pow10((k - 1) as nat)) by (nonlinear_arith)
            requires
                n < 10 * pow10((k - 1) as nat),
        ;
        lemma_num_digits_bound(n / 10, (k - 1) as nat);
    }
}

/// Any value a 64-bit counter can hold has at most 20 decimal digits.
pub proof fn lemma_u64_num_digits(n: nat)
    requires
        n <= u64::MAX,
    ensures
        num_digits(n) <= 20,
{
    reveal_with_fuel(pow10, 21);
    assert(pow10(20) == 100000000000000000000);
    lemma_num_digits_bound(n, 20);
}

/// One decimal digit as a string slice.
fn digit_str(d: u64) -> (s: &'static str)
    requires
        d < 10,
    ensures
        s@ == seq![digit_char(d as nat)],
{
    if d == 0 {
        proof {
            reveal_strlit("0");
            assert("0"@ =~= seq![digit_char(0)]);
        }
        "0"
    } else if d == 1 {
        proof {
            reveal_strlit("1");
            assert("1"@ =~= seq![digit_char(1)]);
        }
        "1"
    } else if d == 2 {
        proof {
            reveal_strlit("2");
            assert("2"@ =~= seq![digit_char(2)]);
        }
        "2"
    } else if d == 3 {
        proof {
            reveal_strlit("3");
            assert("3"@ =~= seq![digit_char(3)]);
        }
        "3"
    } else if d == 4 {
        proof {
            reveal_strlit("4");
            assert("4"@ =~= seq![digit_char(4)]);
        }
        "4"
    } else if d == 5 {
        proof {
            reveal_strlit("5");
            assert("5"@ =~= seq![digit_char(5)]);
        }
        "5"
    } else if d == 6 {
        proof {
            reveal_strlit("6");
            assert("6"@ =~= seq![digit_char(6)]);
        }
        "6"
    } else if d == 7 {
        proof {
            reveal_strlit("7");
            assert("7"@ =~= seq![digit_char(7)]);
        }
        "7"
    } else if d == 8 {
        proof {
            reveal_strlit("8");
            assert("8"@ =~= seq![digit_char(8)]);
        }
        "8"
    } else {
        proof {
            reveal_strlit("9");
            assert("9"@ =~= seq![digit_char(9)]);
        }
        "9"
    }
}

/// Formats `n` as its canonical decimal string.
pub fn to_decimal(n: u64) -> (s: String)
    ensures
        s@ == dec_digits(n as nat),
    decreases n,
{
    if n < 10 {
        digit_str(n).to_owned()
    } else {
        let mut s = to_decimal(n / 10);
        s.append(digit_str(n % 10));
        proof {
            assert(dec_digits(n as nat) =~= dec_digits((n / 10) as nat) + seq![
                digit_char((n % 10) as nat),
            ]);
        }
        s
    }
}

/// Counts the decimal digits of `n`.
pub fn count_digits(n: u64) -> (c: usize)
    ensures
        c == num_digits(n as nat),
        c <= 20,
    decreases n,
{
    proof {
        lemma_u64_num_digits(n as nat);
    }
    if n < 10 {
        1
    } else {
        let c = count_digits(n / 10);
        1 + c
    }
}

/// Width in pixels of the value segment: an empirical 8 pixels per decimal
/// digit plus 10 pixels of padding.
pub open spec fn digit_width(n: nat) -> nat {
    num_digits(n) * 8 + 10
}

/// Width in pixels of the whole badge: the fixed 60-pixel label segment plus
/// the value segment.
pub open spec fn total_width(n: nat) -> nat {
    60 + digit_width(n)
}

/// Horizontal anchor of the value text, centred in the value segment, in the
/// renderer's 10x fixed-point coordinate scale.
pub open spec fn text_anchor(n: nat) -> nat {
    (60 + digit_width(n) / 2) * 10
}

/// Advertised length of the value text in the 10x fixed-point scale: the
/// value segment minus its 10 pixels of padding.
pub open spec fn text_length(n: nat) -> nat {
    ((digit_width(n) - 10) * 10) as nat
}

/// The value text always fits inside the value segment: its advertised
/// length never exceeds the segment's width in the 10x fixed-point scale.
pub proof fn lemma_text_fits(n: nat)
    ensures
        text_length(n) <= digit_width(n) * 10,
{
}

/// The full SVG document for a badge showing `n`, character for character:
/// a fixed grammar of rectangles, gradient overlay and doubled text layers,
/// with the count's decimal string and the four layout measurements spliced
/// in. Rendering is deterministic: the document is a function of `n` alone.
pub open spec fn badge_svg(n: nat) -> Seq<char> {
    "<svg xmlns=\"http://www.w3.org/2000/svg\" width=\""@ + dec_digits(total_width(n))
        + "\" height=\"20\" role=\"img\">\n            <title>Visitas: "@ + dec_digits(n)
        + "</title>\n            <linearGradient id=\"s\" x2=\"0\" y2=\"100%\"><stop offset=\"0\" stop-color=\"#bbb\" stop-opacity=\".1\"/><stop offset=\"1\" stop-opacity=\".1\"/></linearGradient>\n            <clipPath id=\"r\"><rect width=\""@
        + dec_digits(total_width(n))
        + "\" height=\"20\" rx=\"3\" fill=\"#fff\"/></clipPath>\n            <g clip-path=\"url(#r)\">\n                <rect width=\"60\" height=\"20\" fill=\"#555\"/><rect x=\"60\" width=\""@
        + dec_digits(digit_width(n)) + "\" height=\"20\" fill=\"#00a8e8\"/><rect width=\""@
        + dec_digits(total_width(n))
        + "\" height=\"20\" fill=\"url(#s)\"/>\n            </g>\n            <g fill=\"#fff\" text-anchor=\"middle\" font-family=\"Verdana,Geneva,sans-serif\" font-size=\"110\">\n                <text x=\"300\" y=\"150\" fill=\"#010101\" fill-opacity=\".3\" transform=\"scale(.1)\" textLength=\"500\">Visitas</text>\n                <text x=\"300\" y=\"140\" transform=\"scale(.1)\" textLength=\"500\">Visitas</text>\n                <text x=\""@
        + dec_digits(text_anchor(n))
        + "\" y=\"150\" fill=\"#010101\" fill-opacity=\".3\" transform=\"scale(.1)\" textLength=\""@
        + dec_digits(text_length(n)) + "\">"@ + dec_digits(n)
        + "</text>\n                <text x=\""@ + dec_digits(text_anchor(n))
        + "\" y=\"140\" transform=\"scale(.1)\" textLength=\""@ + dec_digits(text_length(n))
        + "\">"@ + dec_digits(n) + "</text>\n            </g>\n        </svg>"@
}

/// A rendered badge: the count it shows, the count's decimal text, and the
/// four layout measurements derived from the digit count. The geometry is a
/// pure function of the count, so two documents for one count are equal.
pub struct BadgeDocument {
    pub count: u64,
    pub count_text: String,
    pub value_width: u64,
    pub total_width: u64,
    pub text_anchor: u64,
    pub text_length: u64,
}

impl BadgeDocument {
    /// The document's fields are exactly the layout formulas applied to its
    /// count. `render` establishes this, and `svg` relies on it.
    pub open spec fn wf(self) -> bool {
        &&& self.count_text@ == dec_digits(self.count as nat)
        &&& self.value_width == digit_width(self.count as nat)
        &&& self.total_width == total_width(self.count as nat)
        &&& self.text_anchor == text_anchor(self.count as nat)
        &&& self.text_length == text_length(self.count as nat)
    }

    /// Serialises the document as SVG text, byte for byte the grammar that
    /// `badge_svg` lays down. Calling it twice on documents for the same
    /// count gives identical output: the result is pinned to a function of
    /// the count alone.
    pub fn svg(&self) -> (s: String)
        requires
            self.wf(),
        ensures
            s@ == badge_svg(self.count as nat),
    {
        let total = to_decimal(self.total_width);
        let value = to_decimal(self.value_width);
        let anchor = to_decimal(self.text_anchor);
        let length = to_decimal(self.text_length);
        let mut s = "<svg xmlns=\"http://www.w3.org/2000/svg\" width=\"".to_owned();
        s.append(total.as_str());
        s.append("\" height=\"20\" role=\"img\">\n            <title>Visitas: ");
        s.append(self.count_text.as_str());
        s.append(
            "</title>\n            <linearGradient id=\"s\" x2=\"0\" y2=\"100%\"><stop offset=\"0\" stop-color=\"#bbb\" stop-opacity=\".1\"/><stop offset=\"1\" stop-opacity=\".1\"/></linearGradient>\n            <clipPath id=\"r\"><rect width=\"",
        );
        s.append(total.as_str());
        s.append(
            "\" height=\"20\" rx=\"3\" fill=\"#fff\"/></clipPath>\n            <g clip-path=\"url(#r)\">\n                <rect width=\"60\" height=\"20\" fill=\"#555\"/><rect x=\"60\" width=\"",
        );
        s.append(value.as_str());
        s.append("\" height=\"20\" fill=\"#00a8e8\"/><rect width=\"");
        s.append(total.as_str());
        s.append(
            "\" height=\"20\" fill=\"url(#s)\"/>\n            </g>\n            <g fill=\"#fff\" text-anchor=\"middle\" font-family=\"Verdana,Geneva,sans-serif\" font-size=\"110\">\n                <text x=\"300\" y=\"150\" fill=\"#010101\" fill-opacity=\".3\" transform=\"scale(.1)\" textLength=\"500\">Visitas</text>\n                <text x=\"300\" y=\"140\" transform=\"scale(.1)\" textLength=\"500\">Visitas</text>\n                <text x=\"",
        );
        s.append(anchor.as_str());
        s.append(
            "\" y=\"150\" fill=\"#010101\" fill-opacity=\".3\" transform=\"scale(.1)\" textLength=\"",
        );
        s.append(length.as_str());
        s.append("\">");
        s.append(self.count_text.as_str());
        s.append("</text>\n                <text x=\"");
        s.append(anchor.as_str());
        s.append("\" y=\"140\" transform=\"scale(.1)\" textLength=\"");
        s.append(length.as_str());
        s.append("\">");
        s.append(self.count_text.as_str());
        s.append("</text>\n            </g>\n        </svg>");
        s
    }
}

/// Renders the badge document for `count`: its decimal text and every layout
/// measurement, each pinned to the corresponding formula; the value segment
/// is 8 pixels per character of the decimal string plus 10 of padding.
pub fn render(count: u64) -> (doc: BadgeDocument)
    ensures
        doc.wf(),
        doc.count == count,
        doc.value_width == doc.count_text@.len() * 8 + 10,
{
    proof {
        lemma_dec_digits_len(count as nat);
    }
    let digits: usize = count_digits(count);
    let value_width: u64 = (digits as u64) * 8 + 10;
    let count_text = to_decimal(count);
    BadgeDocument {
        count,
        count_text,
        value_width,
        total_width: 60 + value_width,
        text_anchor: (60 + value_width / 2) * 10,
        text_length: (value_width - 10) * 10,
    }
}

/// Renders the badge for `count` and serialises it in one step.
pub fn render_svg(count: u64) -> (s: String)
    ensures
        s@ == badge_svg(count as nat),
{
    let doc = render(count);
    doc.svg()
}

} // verus!
