//! The text that one reading is sent as.

use vstd::prelude::*;
use crate::decimal::{decimal, is_digit, lemma_decimal_is_digits, lemma_decimal_is_injective};

verus! {

/// A reading as a mathematical value: the timestamp and the eleven axis
/// values as the texts they are sent as, the three integer channels as
/// numbers.
pub struct Reading {
    pub timestamp: Seq<char>,
    pub lat: Seq<char>,
    pub lon: Seq<char>,
    pub accel_x: Seq<char>,
    pub accel_y: Seq<char>,
    pub accel_z: Seq<char>,
    pub gyro_x: Seq<char>,
    pub gyro_y: Seq<char>,
    pub gyro_z: Seq<char>,
    pub mag_x: Seq<char>,
    pub mag_y: Seq<char>,
    pub mag_z: Seq<char>,
    pub force: nat,
    pub linear: nat,
    pub string: nat,
}

/// Whether `c` may stand in a timestamp: a digit, a sign, or one of the marks
/// that part date from time, hours from minutes and seconds from their
/// fraction.
pub open spec fn is_stamp_char(c: char) -> bool {
    is_digit(c) || c == '-' || c == '+' || c == ':' || c == '.' || c == ' '
}

/// Whether `text` can be a timestamp: made of timestamp characters only.
pub open spec fn is_stamp_text(text: Seq<char>) -> bool {
    forall|i: int| 0 <= i < text.len() ==> is_stamp_char(#[trigger] text[i])
}

/// Whether every character of `text` from place `from` up to, not with,
/// place `to` is a digit.
pub open spec fn digits_between(text: Seq<char>, from: int, to: int) -> bool {
    forall|i: int| from <= i < to ==> is_digit(#[trigger] text[i])
}

/// Whether `text` is a year as a timestamp writes it: four digits, or a sign
/// and then four digits or more.
pub open spec fn is_year_text(text: Seq<char>) -> bool {
    ||| text.len() == 4 && digits_between(text, 0, 4)
    ||| text.len() >= 5 && (text[0] == '+' || text[0] == '-') && digits_between(
        text,
        1,
        text.len() as int,
    )
}

/// Whether `text` is a timestamp in the one fixed layout: the year, then
/// month and day of two digits each behind a `-`, a space, hour, minute and
/// second of two digits each with `:` between them, and a `.` with the nine
/// digits of the nanoseconds. All that follows the year has 25 characters.
pub open spec fn is_timestamp(text: Seq<char>) -> bool {
    let y = text.len() - 25;
    &&& text.len() >= 29
    &&& is_year_text(text.subrange(0, y))
    &&& text[y] == '-'
    &&& digits_between(text, y + 1, y + 3)
    &&& text[y + 3] == '-'
    &&& digits_between(text, y + 4, y + 6)
    &&& text[y + 6] == ' '
    &&& digits_between(text, y + 7, y + 9)
    &&& text[y + 9] == ':'
    &&& digits_between(text, y + 10, y + 12)
    &&& text[y + 12] == ':'
    &&& digits_between(text, y + 13, y + 15)
    &&& text[y + 15] == '.'
    &&& digits_between(text, y + 16, y + 25)
}

/// A timestamp in the fixed layout holds timestamp characters only.
pub proof fn lemma_timestamp_is_stamp_text(text: Seq<char>)
    requires
        is_timestamp(text),
    ensures
        is_stamp_text(text),
{
    let y = text.len() - 25;
    let year = text.subrange(0, y);
    assert forall|i: int| 0 <= i < text.len() implies is_stamp_char(#[trigger] text[i]) by {
        if i < y {
            assert(text[i] == year[i]);
            if i >= 1 || year.len() == 4 {
                assert(is_digit(year[i]));
            }
        } else if y + 1 <= i < y + 3 {
            assert(is_digit(text[i]));
        } else if y + 4 <= i < y + 6 {
            assert(is_digit(text[i]));
        } else if y + 7 <= i < y + 9 {
            assert(is_digit(text[i]));
        } else if y + 10 <= i < y + 12 {
            assert(is_digit(text[i]));
        } else if y + 13 <= i < y + 15 {
            assert(is_digit(text[i]));
        } else if y + 16 <= i {
            assert(is_digit(text[i]));
        }
    }
}

/// Whether `c` may stand in the text of an axis value: a digit, a sign, the
/// decimal point or an exponent mark.
pub open spec fn is_number_char(c: char) -> bool {
    is_digit(c) || c == '-' || c == '+' || c == '.' || c == 'e' || c == 'E'
}

/// Whether `text` can be the text of an axis value: not empty, and made of
/// number characters only.
pub open spec fn is_number_text(text: Seq<char>) -> bool {
    &&& text.len() > 0
    &&& forall|i: int| 0 <= i < text.len() ==> is_number_char(#[trigger] text[i])
}

/// A value of the sensor blob after the first: a comma, its key in quotes, a
/// colon, and the value.
pub open spec fn labelled(key: Seq<char>, value: Seq<char>) -> Seq<char> {
    ", \""@ + key + "\": "@ + value
}

/// The text of a reading: an object with the timestamp as a string, and the
/// sensor blob with all fourteen values under their keys, always in this
/// order.
pub open spec fn wire_text(r: Reading) -> Seq<char> {
    "{\"timestamp\": \""@ + r.timestamp + "\", \"sensor_blob\": {\"lat\": "@ + r.lat + labelled(
        "lon"@,
        r.lon,
    ) + labelled("accel_x"@, r.accel_x) + labelled("accel_y"@, r.accel_y) + labelled(
        "accel_z"@,
        r.accel_z,
    ) + labelled("gyro_x"@, r.gyro_x) + labelled("gyro_y"@, r.gyro_y) + labelled(
        "gyro_z"@,
        r.gyro_z,
    ) + labelled("mag_x"@, r.mag_x) + labelled("mag_y"@, r.mag_y) + labelled("mag_z"@, r.mag_z)
        + labelled("force"@, decimal(r.force)) + labelled("linear"@, decimal(r.linear))
        + labelled("string"@, decimal(r.string)) + "} }"@
}

impl Reading {
    /// Whether the timestamp is one, every axis value is the text of a
    /// number, and every integer channel fits its type.
    pub open spec fn valid(self) -> bool {
        &&& is_stamp_text(self.timestamp)
        &&& self.force <= u16::MAX
        &&& self.linear <= u16::MAX
        &&& self.string <= u16::MAX
        &&& is_number_text(self.lat)
        &&& is_number_text(self.lon)
        &&& is_number_text(self.accel_x)
        &&& is_number_text(self.accel_y)
        &&& is_number_text(self.accel_z)
        &&& is_number_text(self.gyro_x)
        &&& is_number_text(self.gyro_y)
        &&& is_number_text(self.gyro_z)
        &&& is_number_text(self.mag_x)
        &&& is_number_text(self.mag_y)
        &&& is_number_text(self.mag_z)
    }
}

proof fn lemma_cut_at_last(x: Seq<char>, v: Seq<char>, y: Seq<char>, w: Seq<char>, c: char)
    requires
        x.len() > 0,
        x.last() == c,
        y.len() > 0,
        y.last() == c,
        forall|i: int| 0 <= i < v.len() ==> v[i] != c,
        forall|i: int| 0 <= i < w.len() ==> w[i] != c,
        x + v == y + w,
    ensures
        x == y,
        v == w,
{
    let whole = x + v;
    assert(whole.len() == x.len() + v.len());
    assert(whole.len() == y.len() + w.len());
    if v.len() < w.len() {
        let i = x.len() - 1;
        assert(whole[i] == x[i]);
        assert((y + w)[i] == w[i - y.len()]);
    }
    if w.len() < v.len() {
        let i = y.len() - 1;
        assert((y + w)[i] == y[i]);
        assert(whole[i] == v[i - x.len()]);
    }
    assert(x.len() == y.len());
    assert forall|i: int| 0 <= i < x.len() implies x[i] == y[i] by {
        assert(whole[i] == x[i]);
        assert((y + w)[i] == y[i]);
    }
    assert(x =~= y);
    assert forall|i: int| 0 <= i < v.len() implies v[i] == w[i] by {
        assert(whole[x.len() + i] == v[i]);
        assert((y + w)[y.len() + i] == w[i]);
    }
    assert(v =~= w);
}

proof fn lemma_same_suffix(x: Seq<char>, y: Seq<char>, s: Seq<char>)
    requires
        x + s == y + s,
    ensures
        x == y,
{
    assert((x + s).len() == x.len() + s.len());
    assert((y + s).len() == y.len() + s.len());
    assert forall|i: int| 0 <= i < x.len() implies x[i] == y[i] by {
        assert((x + s)[i] == x[i]);
        assert((y + s)[i] == y[i]);
    }
    assert(x =~= y);
}

proof fn lemma_same_prefix(p: Seq<char>, v: Seq<char>, w: Seq<char>)
    requires
        p + v == p + w,
    ensures
        v == w,
{
    assert((p + v).len() == p.len() + v.len());
    assert((p + w).len() == p.len() + w.len());
    assert forall|i: int| 0 <= i < v.len() implies v[i] == w[i] by {
        assert((p + v)[p.len() + i] == v[i]);
        assert((p + w)[p.len() + i] == w[i]);
    }
    assert(v =~= w);
}

/// The value that ends a text can be told from what stands before it, when
/// that ends with a space and the value holds none.
proof fn lemma_value_is_cut(p: Seq<char>, q: Seq<char>, mark: Seq<char>, v: Seq<char>, w: Seq<char>)
    requires
        mark.len() > 0,
        mark.last() == ' ',
        forall|i: int| 0 <= i < v.len() ==> v[i] != ' ',
        forall|i: int| 0 <= i < w.len() ==> w[i] != ' ',
        p + mark + v == q + mark + w,
    ensures
        p == q,
        v == w,
{
    lemma_cut_at_last(p + mark, v, q + mark, w, ' ');
    lemma_same_suffix(p, q, mark);
}

/// The same for a value of the sensor blob that stands under a key.
proof fn lemma_field_is_cut(p: Seq<char>, q: Seq<char>, key: Seq<char>, v: Seq<char>, w: Seq<char>)
    requires
        forall|i: int| 0 <= i < v.len() ==> v[i] != ' ',
        forall|i: int| 0 <= i < w.len() ==> w[i] != ' ',
        p + labelled(key, v) == q + labelled(key, w),
    ensures
        p == q,
        v == w,
{
    reveal_strlit("\": ");
    let mark = ", \""@ + key + "\": "@;
    assert(mark.last() == ' ');
    assert(p + labelled(key, v) =~= p + mark + v);
    assert(q + labelled(key, w) =~= q + mark + w);
    lemma_value_is_cut(p, q, mark, v, w);
}

/// The text of a number holds no space.
proof fn lemma_number_text_has_no_space(text: Seq<char>)
    requires
        is_number_text(text),
    ensures
        forall|i: int| 0 <= i < text.len() ==> text[i] != ' ',
{
    assert forall|i: int| 0 <= i < text.len() implies text[i] != ' ' by {
        assert(is_number_char(text[i]));
    }
}

/// Decimal notation holds no space.
proof fn lemma_decimal_has_no_space(n: nat)
    ensures
        forall|i: int| 0 <= i < decimal(n).len() ==> decimal(n)[i] != ' ',
{
    lemma_decimal_is_digits(n);
    assert forall|i: int| 0 <= i < decimal(n).len() implies decimal(n)[i] != ' ' by {
        assert(is_digit(decimal(n)[i]));
    }
}

/// The text of a reading loses nothing: two readings that are sent as the
/// same text agree in the timestamp and in each of the fourteen values, so
/// whoever receives the text can have the reading back exactly.
pub proof fn law_wire_text_is_faithful(a: Reading, b: Reading)
    requires
        a.valid(),
        b.valid(),
        wire_text(a) == wire_text(b),
    ensures
        a == b,
{
    let head = "{\"timestamp\": \""@;
    let blob = "\", \"sensor_blob\": {\"lat\": "@;
    let a0 = head + a.timestamp + blob + a.lat;
    let b0 = head + b.timestamp + blob + b.lat;
    let a1 = a0 + labelled("lon"@, a.lon);
    let b1 = b0 + labelled("lon"@, b.lon);
    let a2 = a1 + labelled("accel_x"@, a.accel_x);
    let b2 = b1 + labelled("accel_x"@, b.accel_x);
    let a3 = a2 + labelled("accel_y"@, a.accel_y);
    let b3 = b2 + labelled("accel_y"@, b.accel_y);
    let a4 = a3 + labelled("accel_z"@, a.accel_z);
    let b4 = b3 + labelled("accel_z"@, b.accel_z);
    let a5 = a4 + labelled("gyro_x"@, a.gyro_x);
    let b5 = b4 + labelled("gyro_x"@, b.gyro_x);
    let a6 = a5 + labelled("gyro_y"@, a.gyro_y);
    let b6 = b5 + labelled("gyro_y"@, b.gyro_y);
    let a7 = a6 + labelled("gyro_z"@, a.gyro_z);
    let b7 = b6 + labelled("gyro_z"@, b.gyro_z);
    let a8 = a7 + labelled("mag_x"@, a.mag_x);
    let b8 = b7 + labelled("mag_x"@, b.mag_x);
    let a9 = a8 + labelled("mag_y"@, a.mag_y);
    let b9 = b8 + labelled("mag_y"@, b.mag_y);
    let a10 = a9 + labelled("mag_z"@, a.mag_z);
    let b10 = b9 + labelled("mag_z"@, b.mag_z);
    let a11 = a10 + labelled("force"@, decimal(a.force));
    let b11 = b10 + labelled("force"@, decimal(b.force));
    let a12 = a11 + labelled("linear"@, decimal(a.linear));
    let b12 = b11 + labelled("linear"@, decimal(b.linear));
    let a13 = a12 + labelled("string"@, decimal(a.string));
    let b13 = b12 + labelled("string"@, decimal(b.string));
    assert(wire_text(a) == a13 + "} }"@);
    assert(wire_text(b) == b13 + "} }"@);
    lemma_same_suffix(a13, b13, "} }"@);

    lemma_decimal_has_no_space(a.string);
    lemma_decimal_has_no_space(b.string);
    lemma_field_is_cut(a12, b12, "string"@, decimal(a.string), decimal(b.string));
    lemma_decimal_is_injective(a.string, b.string);

    lemma_decimal_has_no_space(a.linear);
    lemma_decimal_has_no_space(b.linear);
    lemma_field_is_cut(a11, b11, "linear"@, decimal(a.linear), decimal(b.linear));
    lemma_decimal_is_injective(a.linear, b.linear);

    lemma_decimal_has_no_space(a.force);
    lemma_decimal_has_no_space(b.force);
    lemma_field_is_cut(a10, b10, "force"@, decimal(a.force), decimal(b.force));
    lemma_decimal_is_injective(a.force, b.force);

    lemma_number_text_has_no_space(a.mag_z);
    lemma_number_text_has_no_space(b.mag_z);
    lemma_field_is_cut(a9, b9, "mag_z"@, a.mag_z, b.mag_z);
    lemma_number_text_has_no_space(a.mag_y);
    lemma_number_text_has_no_space(b.mag_y);
    lemma_field_is_cut(a8, b8, "mag_y"@, a.mag_y, b.mag_y);
    lemma_number_text_has_no_space(a.mag_x);
    lemma_number_text_has_no_space(b.mag_x);
    lemma_field_is_cut(a7, b7, "mag_x"@, a.mag_x, b.mag_x);

    lemma_number_text_has_no_space(a.gyro_z);
    lemma_number_text_has_no_space(b.gyro_z);
    lemma_field_is_cut(a6, b6, "gyro_z"@, a.gyro_z, b.gyro_z);
    lemma_number_text_has_no_space(a.gyro_y);
    lemma_number_text_has_no_space(b.gyro_y);
    lemma_field_is_cut(a5, b5, "gyro_y"@, a.gyro_y, b.gyro_y);
    lemma_number_text_has_no_space(a.gyro_x);
    lemma_number_text_has_no_space(b.gyro_x);
    lemma_field_is_cut(a4, b4, "gyro_x"@, a.gyro_x, b.gyro_x);

    lemma_number_text_has_no_space(a.accel_z);
    lemma_number_text_has_no_space(b.accel_z);
    lemma_field_is_cut(a3, b3, "accel_z"@, a.accel_z, b.accel_z);
    lemma_number_text_has_no_space(a.accel_y);
    lemma_number_text_has_no_space(b.accel_y);
    lemma_field_is_cut(a2, b2, "accel_y"@, a.accel_y, b.accel_y);
    lemma_number_text_has_no_space(a.accel_x);
    lemma_number_text_has_no_space(b.accel_x);
    lemma_field_is_cut(a1, b1, "accel_x"@, a.accel_x, b.accel_x);

    lemma_number_text_has_no_space(a.lon);
    lemma_number_text_has_no_space(b.lon);
    lemma_field_is_cut(a0, b0, "lon"@, a.lon, b.lon);

    reveal_strlit("\", \"sensor_blob\": {\"lat\": ");
    assert(blob.last() == ' ');
    lemma_number_text_has_no_space(a.lat);
    lemma_number_text_has_no_space(b.lat);
    lemma_value_is_cut(head + a.timestamp, head + b.timestamp, blob, a.lat, b.lat);
    lemma_same_prefix(head, a.timestamp, b.timestamp);
}

} // verus!
