//! Readings: one sample of every sensor, with the time it was taken.

use vstd::prelude::*;
use vstd::string::{StrSliceExecFns, StringExecFns};
use crate::channel::Channels;
use crate::decimal::append_decimal;
use crate::wire::{
    is_number_char, is_number_text, is_stamp_char, is_stamp_text, is_timestamp, labelled,
    lemma_timestamp_is_stamp_text, wire_text, Reading,
};

verus! {

/// The `strftime` pattern of a timestamp: date and time of day, with nine
/// digits after the second.
pub const TIMESTAMP_FORMAT: &'static str = "%Y-%m-%d %H:%M:%S%.9f";

/// `chrono::Utc::now`, then `DateTime::format` with `format` and `to_string`
/// on what it gives.
///
/// `format` has to be the one pattern of this library: on a pattern that
/// chrono cannot read, `to_string` panics. `Utc::now` panics where the system
/// clock stands before 1970, which no argument decides. Which time the text
/// tells depends on the clock, and nothing is said of that. What is claimed
/// is the layout that chrono gives the pattern's items whatever the time: the
/// year in four digits, or with a sign and four digits or more when it lies
/// outside 0 to 9999; month, day, hour, minute and second in two digits
/// each; the nanoseconds in nine digits behind a `.`; and between the items
/// the marks of the pattern.
#[verifier::external_body]
fn clock_text(format: &str) -> (text: String)
    requires
        format@ == TIMESTAMP_FORMAT@,
    ensures
        is_timestamp(text@),
{
    chrono::Utc::now().format(format).to_string()
}

/// The time of the call in UTC, written after [`TIMESTAMP_FORMAT`]: always in
/// the one fixed layout, with the nanoseconds in nine digits.
fn get_timestamp() -> (text: String)
    ensures
        is_timestamp(text@),
        is_stamp_text(text@),
{
    let text = clock_text(TIMESTAMP_FORMAT);
    proof {
        lemma_timestamp_is_stamp_text(text@);
    }
    text
}

fn stamp_char(c: char) -> (b: bool)
    ensures
        b == is_stamp_char(c),
{
    c == '0' || c == '1' || c == '2' || c == '3' || c == '4' || c == '5' || c == '6' || c == '7'
        || c == '8' || c == '9' || c == '-' || c == '+' || c == ':' || c == '.' || c == ' '
}

/// Whether `text` is made of the characters of a timestamp only.
pub fn stamp_text(text: &str) -> (b: bool)
    ensures
        b == is_stamp_text(text@),
{
    let len = text.unicode_len();
    let mut i: usize = 0;
    while i < len
        invariant
            len == text@.len(),
            i <= len,
            forall|j: int| 0 <= j < i ==> is_stamp_char(#[trigger] text@[j]),
        decreases len - i,
    {
        let c = text.get_char(i);
        if !stamp_char(c) {
            return false;
        }
        i = i + 1;
    }
    true
}

fn number_char(c: char) -> (b: bool)
    ensures
        b == is_number_char(c),
{
    c == '0' || c == '1' || c == '2' || c == '3' || c == '4' || c == '5' || c == '6' || c == '7'
        || c == '8' || c == '9' || c == '-' || c == '+' || c == '.' || c == 'e' || c == 'E'
}

/// The value of one axis, held as the text it is sent as.
#[derive(Debug)]
pub struct AxisText {
    text: String,
}

impl View for AxisText {
    type V = Seq<char>;

    closed spec fn view(&self) -> Seq<char> {
        self.text@
    }
}

impl AxisText {
    #[verifier::type_invariant]
    spec fn inv(&self) -> bool {
        is_number_text(self.text@)
    }

    /// Takes `text` as the value of an axis if it is the text of a number:
    /// not empty, and made of digits, signs, the decimal point and exponent
    /// marks only.
    pub fn new(text: String) -> (axis: Option<AxisText>)
        ensures
            axis is Some <==> is_number_text(text@),
            axis is Some ==> axis->0@ == text@,
    {
        let len = text.as_str().unicode_len();
        if len == 0 {
            return None;
        }
        let mut i: usize = 0;
        while i < len
            invariant
                len == text@.len(),
                i <= len,
                forall|j: int| 0 <= j < i ==> is_number_char(#[trigger] text@[j]),
            decreases len - i,
        {
            let c = text.as_str().get_char(i);
            if !number_char(c) {
                return None;
            }
            i = i + 1;
        }
        Some(AxisText { text })
    }

    /// The text of the value.
    pub fn as_str(&self) -> (text: &str)
        ensures
            text@ == self@,
            is_number_text(self@),
    {
        proof {
            use_type_invariant(self);
        }
        self.text.as_str()
    }
}

/// The eleven axis values of a reading.
#[derive(Debug)]
pub struct Axes {
    /// Latitude and longitude.
    pub gps: (AxisText, AxisText),
    /// Acceleration along x, y and z.
    pub accel: (AxisText, AxisText, AxisText),
    /// Rotation about x, y and z.
    pub gyro: (AxisText, AxisText, AxisText),
    /// Magnetic field along x, y and z.
    pub mag: (AxisText, AxisText, AxisText),
}

/// One reading.
#[derive(Debug)]
pub struct DataPoint {
    timestamp: String,
    axes: Axes,
    force: u16,
    linear: u16,
    string: u16,
}

impl View for DataPoint {
    type V = Reading;

    closed spec fn view(&self) -> Reading {
        Reading {
            timestamp: self.timestamp@,
            lat: self.axes.gps.0@,
            lon: self.axes.gps.1@,
            accel_x: self.axes.accel.0@,
            accel_y: self.axes.accel.1@,
            accel_z: self.axes.accel.2@,
            gyro_x: self.axes.gyro.0@,
            gyro_y: self.axes.gyro.1@,
            gyro_z: self.axes.gyro.2@,
            mag_x: self.axes.mag.0@,
            mag_y: self.axes.mag.1@,
            mag_z: self.axes.mag.2@,
            force: self.force as nat,
            linear: self.linear as nat,
            string: self.string as nat,
        }
    }
}

/// Whether `r` holds exactly the axis values of `axes`.
pub open spec fn carries(r: Reading, axes: Axes) -> bool {
    &&& r.lat == axes.gps.0@
    &&& r.lon == axes.gps.1@
    &&& r.accel_x == axes.accel.0@
    &&& r.accel_y == axes.accel.1@
    &&& r.accel_z == axes.accel.2@
    &&& r.gyro_x == axes.gyro.0@
    &&& r.gyro_y == axes.gyro.1@
    &&& r.gyro_z == axes.gyro.2@
    &&& r.mag_x == axes.mag.0@
    &&& r.mag_y == axes.mag.1@
    &&& r.mag_z == axes.mag.2@
}

fn append_field(out: &mut String, key: &str, value: &str)
    ensures
        final(out)@ == old(out)@ + labelled(key@, value@),
{
    out.append(", \"");
    out.append(key);
    out.append("\": ");
    out.append(value);
    assert(out@ =~= old(out)@ + labelled(key@, value@));
}

impl DataPoint {
    #[verifier::type_invariant]
    spec fn inv(&self) -> bool {
        is_stamp_text(self.timestamp@)
    }

    fn assemble(timestamp: String, axes: Axes, force: u16, linear: u16, string: u16) -> (point:
        DataPoint)
        requires
            is_stamp_text(timestamp@),
        ensures
            point@.timestamp == timestamp@,
            carries(point@, axes),
            point@.force == force,
            point@.linear == linear,
            point@.string == string,
            point@.valid(),
    {
        proof {
            use_type_invariant(&axes.gps.0);
            use_type_invariant(&axes.gps.1);
            use_type_invariant(&axes.accel.0);
            use_type_invariant(&axes.accel.1);
            use_type_invariant(&axes.accel.2);
            use_type_invariant(&axes.gyro.0);
            use_type_invariant(&axes.gyro.1);
            use_type_invariant(&axes.gyro.2);
            use_type_invariant(&axes.mag.0);
            use_type_invariant(&axes.mag.1);
            use_type_invariant(&axes.mag.2);
        }
        DataPoint { timestamp, axes, force, linear, string }
    }

    /// The reading made of the given parts, or `None` when `timestamp` holds
    /// a character that no timestamp has.
    pub fn from_parts(timestamp: String, axes: Axes, force: u16, linear: u16, string: u16) -> (point:
        Option<DataPoint>)
        ensures
            point is Some <==> is_stamp_text(timestamp@),
            point is Some ==> {
                &&& point->0@.timestamp == timestamp@
                &&& carries(point->0@, axes)
                &&& point->0@.force == force
                &&& point->0@.linear == linear
                &&& point->0@.string == string
                &&& point->0@.valid()
            },
    {
        if stamp_text(timestamp.as_str()) {
            Some(DataPoint::assemble(timestamp, axes, force, linear, string))
        } else {
            None
        }
    }

    /// Samples the sensors: stamps the reading with the time of the call, in
    /// the fixed layout of a timestamp, and draws each integer channel from
    /// `rng`, within the bounds that `channels` sets for it. The axis values
    /// are those of `axes`.
    pub fn new(rng: &mut rand::rngs::ThreadRng, channels: &Channels, axes: Axes) -> (point:
        DataPoint)
        ensures
            carries(point@, axes),
            channels.force.admits(point@.force as int),
            channels.linear.admits(point@.linear as int),
            channels.string.admits(point@.string as int),
            is_timestamp(point@.timestamp),
            point@.valid(),
    {
        let timestamp = get_timestamp();
        let force = channels.force.sample(rng);
        let linear = channels.linear.sample(rng);
        let string = channels.string.sample(rng);
        DataPoint::assemble(timestamp, axes, force, linear, string)
    }

    /// The time the reading was taken.
    pub fn timestamp(&self) -> (text: &str)
        ensures
            text@ == self@.timestamp,
            is_stamp_text(text@),
    {
        proof {
            use_type_invariant(self);
        }
        self.timestamp.as_str()
    }

    /// The axis values.
    pub fn axes(&self) -> (axes: &Axes)
        ensures
            carries(self@, *axes),
    {
        &self.axes
    }

    /// The value of the force channel.
    pub fn force(&self) -> (force: u16)
        ensures
            force == self@.force,
    {
        self.force
    }

    /// The value of the linear channel.
    pub fn linear(&self) -> (linear: u16)
        ensures
            linear == self@.linear,
    {
        self.linear
    }

    /// The value of the string channel.
    pub fn string(&self) -> (string: u16)
        ensures
            string == self@.string,
    {
        self.string
    }

    /// The text the reading is sent as.
    pub fn to_string(&self) -> (text: String)
        ensures
            text@ == wire_text(self@),
    {
        let mut force = String::new();
        append_decimal(&mut force, self.force);
        let mut linear = String::new();
        append_decimal(&mut linear, self.linear);
        let mut string = String::new();
        append_decimal(&mut string, self.string);
        let mut out = String::new();
        out.append("{\"timestamp\": \"");
        out.append(self.timestamp.as_str());
        out.append("\", \"sensor_blob\": {\"lat\": ");
        out.append(self.axes.gps.0.as_str());
        append_field(&mut out, "lon", self.axes.gps.1.as_str());
        append_field(&mut out, "accel_x", self.axes.accel.0.as_str());
        append_field(&mut out, "accel_y", self.axes.accel.1.as_str());
        append_field(&mut out, "accel_z", self.axes.accel.2.as_str());
        append_field(&mut out, "gyro_x", self.axes.gyro.0.as_str());
        append_field(&mut out, "gyro_y", self.axes.gyro.1.as_str());
        append_field(&mut out, "gyro_z", self.axes.gyro.2.as_str());
        append_field(&mut out, "mag_x", self.axes.mag.0.as_str());
        append_field(&mut out, "mag_y", self.axes.mag.1.as_str());
        append_field(&mut out, "mag_z", self.axes.mag.2.as_str());
        append_field(&mut out, "force", force.as_str());
        append_field(&mut out, "linear", linear.as_str());
        append_field(&mut out, "string", string.as_str());
        out.append("} }");
        assert(out@ =~= wire_text(self@));
        out
    }
}

} // verus!
