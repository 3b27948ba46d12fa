//! The view function: a pure projection of the model onto a layout
//! description — two bordered panels of equal height, stacked
//! vertically inside a one-cell margin, each showing the counter and
//! the raw bytes of the payload. The text is built by a verified
//! decimal formatter.

use vstd::prelude::*;

use crate::model::API_KEY_LEN;
use crate::model::Model;

verus! {

/// The decimal digit character for `d` (defined for `0 <= d <= 9`).
pub open spec fn spec_digit_char(d: int) -> char {
    if d == 0 {
        '0'
    } else if d == 1 {
        '1'
    } else if d == 2 {
        '2'
    } else if d == 3 {
        '3'
    } else if d == 4 {
        '4'
    } else if d == 5 {
        '5'
    } else if d == 6 {
        '6'
    } else if d == 7 {
        '7'
    } else if d == 8 {
        '8'
    } else {
        '9'
    }
}

/// The usual decimal rendering of a natural number, most significant
/// digit first, without leading zeros (except for zero itself).
pub open spec fn spec_dec_nat(n: nat) -> Seq<char>
    decreases n,
{
    if n < 10 {
        seq![spec_digit_char(n as int)]
    } else {
        spec_dec_nat(n / 10) + seq![spec_digit_char((n % 10) as int)]
    }
}

/// The decimal rendering of an integer: a leading minus sign for
/// negative values, then the digits of the magnitude.
pub open spec fn spec_dec_int(v: int) -> Seq<char> {
    if v < 0 {
        seq!['-'] + spec_dec_nat((-v) as nat)
    } else {
        spec_dec_nat(v as nat)
    }
}

/// The comma-separated decimal list of a byte sequence, as it appears
/// between the brackets of the payload display.
pub open spec fn spec_bytes_list(bytes: Seq<u8>) -> Seq<char>
    decreases bytes.len(),
{
    if bytes.len() == 0 {
        Seq::empty()
    } else if bytes.len() == 1 {
        spec_dec_nat(bytes[0] as nat)
    } else {
        spec_bytes_list(bytes.drop_last()) + seq![',', ' '] + spec_dec_nat(bytes.last() as nat)
    }
}

/// The text shown in each panel: the counter, then the payload bytes
/// as a bracketed list.
pub open spec fn spec_panel_text(counter: int, api_key: Seq<u8>) -> Seq<char> {
    "Counter: "@ + spec_dec_int(counter) + ", API_KEY: ["@ + spec_bytes_list(api_key) + "]"@
}

/// Append the single digit `d` to `s`.
fn push_digit(s: &mut String, d: u64)
    requires
        d < 10,
    ensures
        final(s)@ == old(s)@ + seq![spec_digit_char(d as int)],
{
    if d == 0 {
        proof {
            reveal_strlit("0");
            assert("0"@ =~= seq![spec_digit_char(0)]);
        }
        s.append("0");
    } else if d == 1 {
        proof {
            reveal_strlit("1");
            assert("1"@ =~= seq![spec_digit_char(1)]);
        }
        s.append("1");
    } else if d == 2 {
        proof {
            reveal_strlit("2");
            assert("2"@ =~= seq![spec_digit_char(2)]);
        }
        s.append("2");
    } else if d == 3 {
        proof {
            reveal_strlit("3");
            assert("3"@ =~= seq![spec_digit_char(3)]);
        }
        s.append("3");
    } else if d == 4 {
        proof {
            reveal_strlit("4");
            assert("4"@ =~= seq![spec_digit_char(4)]);
        }
        s.append("4");
    } else if d == 5 {
        proof {
            reveal_strlit("5");
            assert("5"@ =~= seq![spec_digit_char(5)]);
        }
        s.append("5");
    } else if d == 6 {
        proof {
            reveal_strlit("6");
            assert("6"@ =~= seq![spec_digit_char(6)]);
        }
        s.append("6");
    } else if d == 7 {
        proof {
            reveal_strlit("7");
            assert("7"@ =~= seq![spec_digit_char(7)]);
        }
        s.append("7");
    } else if d == 8 {
        proof {
            reveal_strlit("8");
            assert("8"@ =~= seq![spec_digit_char(8)]);
        }
        s.append("8");
    } else {
        proof {
            reveal_strlit("9");
            assert("9"@ =~= seq![spec_digit_char(9)]);
        }
        s.append("9");
    }
}

/// Append the decimal rendering of `n` to `s`.
fn push_dec_u64(s: &mut String, n: u64)
    ensures
        final(s)@ == old(s)@ + spec_dec_nat(n as nat),
    decreases n,
{
    if n < 10 {
        push_digit(s, n);
    } else {
        push_dec_u64(s, n / 10);
        push_digit(s, n % 10);
        proof {
            assert(old(s)@ + spec_dec_nat((n / 10) as nat) + seq![
                spec_digit_char((n % 10) as int),
            ] =~= old(s)@ + spec_dec_nat(n as nat));
        }
    }
}

/// Append the decimal rendering of the signed `v` to `s`.
fn push_dec_i32(s: &mut String, v: i32)
    ensures
        final(s)@ == old(s)@ + spec_dec_int(v as int),
{
    if v < 0 {
        proof {
            reveal_strlit("-");
            assert("-"@ =~= seq!['-']);
        }
        s.append("-");
        let wide: i64 = v as i64;
        let mag: u64 = (-wide) as u64;
        proof {
            assert(mag as nat == -(v as int));
        }
        push_dec_u64(s, mag);
        proof {
            assert(old(s)@ + seq!['-'] + spec_dec_nat(mag as nat) =~= old(s)@ + spec_dec_int(
                v as int,
            ));
        }
    } else {
        push_dec_u64(s, v as u64);
    }
}

/// Relates the byte list of a prefix to the byte list of the prefix
/// one longer: the next byte is appended after a comma and a space
/// (or stands alone when it is the first).
proof fn lemma_bytes_list_step(bytes: Seq<u8>, k: int)
    requires
        1 <= k <= bytes.len(),
    ensures
        k == 1 ==> spec_bytes_list(bytes.take(k)) == spec_dec_nat(bytes[0] as nat),
        k > 1 ==> spec_bytes_list(bytes.take(k)) == spec_bytes_list(bytes.take(k - 1)) + seq![
            ',',
            ' ',
        ] + spec_dec_nat(bytes[k - 1] as nat),
{
    let taken = bytes.take(k);
    if k == 1 {
        assert(taken.len() == 1);
        assert(taken[0] == bytes[0]);
    } else {
        assert(taken.drop_last() =~= bytes.take(k - 1));
        assert(taken.last() == bytes[k - 1]);
    }
}

/// Build the panel text for the given counter and payload.
pub fn panel_text(counter: i32, api_key: &[u8; API_KEY_LEN]) -> (s: String)
    ensures
        s@ == spec_panel_text(counter as int, api_key@),
{
    let mut s = String::new();
    s.append("Counter: ");
    push_dec_i32(&mut s, counter);
    s.append(", API_KEY: [");
    let ghost prefix: Seq<char> = s@;
    proof {
        assert(prefix =~= prefix + spec_bytes_list(api_key@.take(0)));
    }
    let mut i: usize = 0;
    while i < API_KEY_LEN
        invariant
            i <= API_KEY_LEN,
            api_key@.len() == API_KEY_LEN,
            s@ == prefix + spec_bytes_list(api_key@.take(i as int)),
            prefix == "Counter: "@ + spec_dec_int(counter as int) + ", API_KEY: ["@,
        decreases API_KEY_LEN - i,
    {
        let ghost s_top: Seq<char> = s@;
        if i > 0 {
            proof {
                reveal_strlit(", ");
                assert(", "@ =~= seq![',', ' ']);
            }
            s.append(", ");
        }
        push_dec_u64(&mut s, api_key[i] as u64);
        proof {
            lemma_bytes_list_step(api_key@, i + 1);
            if i == 0 {
                assert(s@ =~= prefix + spec_bytes_list(api_key@.take(i + 1)));
            } else {
                assert(s_top + seq![',', ' '] + spec_dec_nat(api_key@[i as int] as nat) =~= prefix
                    + spec_bytes_list(api_key@.take(i + 1)));
            }
        }
        i = i + 1;
    }
    s.append("]");
    proof {
        assert(api_key@.take(API_KEY_LEN as int) =~= api_key@);
        assert(prefix + spec_bytes_list(api_key@) + "]"@ =~= spec_panel_text(
            counter as int,
            api_key@,
        ));
    }
    s
}

/// One bordered panel of the layout, with its title, its text, and
/// the share of the stacked height it takes.
pub struct Panel {
    pub title: String,
    pub text: String,
    pub bordered: bool,
    pub height_percent: u8,
}

/// The renderable layout description: panels stacked vertically (when
/// `vertical` holds) inside a margin of the given width.
pub struct ViewLayout {
    pub vertical: bool,
    pub margin: u8,
    pub panels: Vec<Panel>,
}

/// Project the model onto its layout: two bordered panels titled
/// "Block 0" and "Block 1", each taking half the height inside a
/// one-cell margin, both showing the same counter-and-payload text.
pub fn view(model: &Model) -> (v: ViewLayout)
    ensures
        v.vertical,
        v.margin == 1,
        v.panels@.len() == 2,
        v.panels@[0].title@ == "Block 0"@,
        v.panels@[1].title@ == "Block 1"@,
        v.panels@[0].bordered && v.panels@[1].bordered,
        v.panels@[0].height_percent == 50 && v.panels@[1].height_percent == 50,
        v.panels@[0].text@ == spec_panel_text(model.counter as int, model.api_key@),
        v.panels@[1].text@ == spec_panel_text(model.counter as int, model.api_key@),
{
    let text0 = panel_text(model.counter, &model.api_key);
    let text1 = panel_text(model.counter, &model.api_key);
    let mut panels: Vec<Panel> = Vec::new();
    panels.push(
        Panel {
            title: String::from_str("Block 0"),
            text: text0,
            bordered: true,
            height_percent: 50,
        },
    );
    panels.push(
        Panel {
            title: String::from_str("Block 1"),
            text: text1,
            bordered: true,
            height_percent: 50,
        },
    );
    ViewLayout { vertical: true, margin: 1, panels }
}

} // verus!
