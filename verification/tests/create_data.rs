use mock_data::channel::{Channel, Channels};
use mock_data::create_data::{stamp_text, Axes, AxisText, DataPoint, TIMESTAMP_FORMAT};

fn axis(value: f32) -> AxisText {
    AxisText::new(value.to_string()).unwrap()
}

fn axes_of(values: [f32; 11]) -> Axes {
    Axes {
        gps: (axis(values[0]), axis(values[1])),
        accel: (axis(values[2]), axis(values[3]), axis(values[4])),
        gyro: (axis(values[5]), axis(values[6]), axis(values[7])),
        mag: (axis(values[8]), axis(values[9]), axis(values[10])),
    }
}

const SAMPLE: [f32; 11] = [
    44.56457, -123.26204, 1.5, -2.25, 0.0, 9.75, -10.0, 3.125, 49.5, -50.0, 0.001,
];

fn field<'a>(text: &'a str, key: &str) -> &'a str {
    let mark = format!("\"{}\": ", key);
    let start = text.find(&mark).unwrap() + mark.len();
    let rest = &text[start..];
    let end = rest.find(|c| c == ',' || c == '}').unwrap();
    &rest[..end]
}

#[test]
fn axis_text_takes_numbers_only() {
    for good in ["0", "5", "-123.26204", "44.56457", "1e-7", "+3.5E+10", "."] {
        let axis = AxisText::new(String::from(good));
        assert!(axis.is_some());
        assert_eq!(axis.unwrap().as_str(), good);
    }
    for bad in ["", " ", "1 2", "NaN", "inf", "-inf", "1,5", "12}", "\"1\"", "0x10", "1\n"] {
        assert!(AxisText::new(String::from(bad)).is_none());
    }
}

#[test]
fn axis_text_takes_every_finite_value_as_it_is_written() {
    for value in [0.0f32, -0.0, 1.0, -5.0, 5.0, 44.56457, -123.26204, 1.0e-7, 3.4e38, -1.0e-30] {
        let text = value.to_string();
        let axis = AxisText::new(text.clone()).unwrap();
        assert_eq!(axis.as_str(), text);
        assert_eq!(axis.as_str().parse::<f32>().unwrap(), value);
    }
}

#[test]
fn stamp_text_takes_digits_and_marks_only() {
    assert!(stamp_text("2025-01-02 03:04:05.123456789"));
    assert!(stamp_text("+12345-01-02 03:04:60.000000000"));
    assert!(stamp_text(""));
    assert!(!stamp_text("2025-01-02T03:04:05"));
    assert!(!stamp_text("2025-01-02 03:04:05\""));
    assert!(!stamp_text(TIMESTAMP_FORMAT));
}

#[test]
fn from_parts_keeps_the_parts() {
    let point = DataPoint::from_parts(
        String::from("2025-01-02 03:04:05.123456789"),
        axes_of(SAMPLE),
        15,
        12,
        10,
    )
    .unwrap();
    assert_eq!(point.timestamp(), "2025-01-02 03:04:05.123456789");
    assert_eq!(point.force(), 15);
    assert_eq!(point.linear(), 12);
    assert_eq!(point.string(), 10);
    assert_eq!(point.axes().gps.0.as_str(), "44.56457");
    assert_eq!(point.axes().gps.1.as_str(), "-123.26204");
    assert_eq!(point.axes().accel.0.as_str(), "1.5");
    assert_eq!(point.axes().accel.1.as_str(), "-2.25");
    assert_eq!(point.axes().accel.2.as_str(), "0");
    assert_eq!(point.axes().gyro.0.as_str(), "9.75");
    assert_eq!(point.axes().gyro.1.as_str(), "-10");
    assert_eq!(point.axes().gyro.2.as_str(), "3.125");
    assert_eq!(point.axes().mag.0.as_str(), "49.5");
    assert_eq!(point.axes().mag.1.as_str(), "-50");
    assert_eq!(point.axes().mag.2.as_str(), "0.001");
}

#[test]
fn from_parts_refuses_what_is_no_timestamp() {
    for bad in ["yesterday", "2025-01-02T03:04:05", "12:00\"", "%Y-%m-%d"] {
        assert!(DataPoint::from_parts(String::from(bad), axes_of(SAMPLE), 1, 2, 3).is_none());
    }
}

#[test]
fn wire_text_of_a_known_reading() {
    let point = DataPoint::from_parts(
        String::from("2025-01-02 03:04:05.123456789"),
        axes_of(SAMPLE),
        15,
        12,
        10,
    )
    .unwrap();
    assert_eq!(
        point.to_string(),
        "{\"timestamp\": \"2025-01-02 03:04:05.123456789\", \"sensor_blob\": {\"lat\": 44.56457, \"lon\": -123.26204, \"accel_x\": 1.5, \"accel_y\": -2.25, \"accel_z\": 0, \"gyro_x\": 9.75, \"gyro_y\": -10, \"gyro_z\": 3.125, \"mag_x\": 49.5, \"mag_y\": -50, \"mag_z\": 0.001, \"force\": 15, \"linear\": 12, \"string\": 10} }"
    );
}

#[test]
fn wire_text_is_the_formatted_reading() {
    let v = SAMPLE;
    for (force, linear, string) in [(5u16, 6u16, 2u16), (25, 18, 18), (0, 65535, 100)] {
        let stamp = "2031-12-31 23:59:59.000000001";
        let point =
            DataPoint::from_parts(String::from(stamp), axes_of(v), force, linear, string).unwrap();
        let expected = format!(
            "{{\"timestamp\": \"{}\", \"sensor_blob\": {{\"lat\": {}, \"lon\": {}, \"accel_x\": {}, \"accel_y\": {}, \"accel_z\": {}, \"gyro_x\": {}, \"gyro_y\": {}, \"gyro_z\": {}, \"mag_x\": {}, \"mag_y\": {}, \"mag_z\": {}, \"force\": {}, \"linear\": {}, \"string\": {}}} }}",
            stamp, v[0], v[1], v[2], v[3], v[4], v[5], v[6], v[7], v[8], v[9], v[10], force,
            linear, string
        );
        assert_eq!(point.to_string(), expected);
    }
}

#[test]
fn wire_text_gives_every_field_back() {
    let stamp = "2025-06-07 08:09:10.000000042";
    let point = DataPoint::from_parts(String::from(stamp), axes_of(SAMPLE), 21, 7, 65535).unwrap();
    let text = point.to_string();
    let opening = "{\"timestamp\": \"";
    assert!(text.starts_with(opening));
    let rest = &text[opening.len()..];
    assert_eq!(&rest[..rest.find('"').unwrap()], stamp);
    let keys = [
        "lat", "lon", "accel_x", "accel_y", "accel_z", "gyro_x", "gyro_y", "gyro_z", "mag_x",
        "mag_y", "mag_z",
    ];
    for (key, value) in keys.iter().zip(SAMPLE.iter()) {
        assert_eq!(field(&text, key).parse::<f32>().unwrap(), *value);
    }
    assert_eq!(field(&text, "force").parse::<u16>().unwrap(), 21);
    assert_eq!(field(&text, "linear").parse::<u16>().unwrap(), 7);
    assert_eq!(field(&text, "string").parse::<u16>().unwrap(), 65535);
    assert!(text.ends_with("} }"));
}

#[test]
fn different_readings_have_different_wire_texts() {
    let stamp = "2025-06-07 08:09:10.000000042";
    let base = DataPoint::from_parts(String::from(stamp), axes_of(SAMPLE), 1, 11, 1).unwrap();
    let other = DataPoint::from_parts(String::from(stamp), axes_of(SAMPLE), 11, 1, 1).unwrap();
    assert_ne!(base.to_string(), other.to_string());
    let mut moved = SAMPLE;
    moved[4] = 0.5;
    let third = DataPoint::from_parts(String::from(stamp), axes_of(moved), 1, 11, 1).unwrap();
    assert_ne!(base.to_string(), third.to_string());
}

#[test]
fn new_reading_lies_within_its_channels() {
    let channels = Channels::default();
    let mut rng = rand::rng();
    for _ in 0..500 {
        let point = DataPoint::new(&mut rng, &channels, axes_of(SAMPLE));
        assert!(5 <= point.force() && point.force() <= 25);
        assert!(6 <= point.linear() && point.linear() <= 18);
        assert!(2 <= point.string() && point.string() <= 18);
    }
}

#[test]
fn new_reading_follows_the_channels_given() {
    let channels = Channels {
        force: Channel::new(1000, 3).unwrap(),
        linear: Channel::new(7, 0).unwrap(),
        string: Channel::new(60000, 5535).unwrap(),
    };
    let mut rng = rand::rng();
    for _ in 0..200 {
        let point = DataPoint::new(&mut rng, &channels, axes_of(SAMPLE));
        assert!(997 <= point.force() && point.force() <= 1003);
        assert_eq!(point.linear(), 7);
        assert!(54465 <= point.string());
    }
}

#[test]
fn new_reading_keeps_the_axes() {
    let mut rng = rand::rng();
    let point = DataPoint::new(&mut rng, &Channels::default(), axes_of(SAMPLE));
    assert_eq!(point.axes().gps.0.as_str(), "44.56457");
    assert_eq!(point.axes().gps.1.as_str(), "-123.26204");
    assert_eq!(point.axes().accel.1.as_str(), "-2.25");
    assert_eq!(point.axes().gyro.2.as_str(), "3.125");
    assert_eq!(point.axes().mag.2.as_str(), "0.001");
    let text = point.to_string();
    assert_eq!(field(&text, "lat"), "44.56457");
    assert_eq!(field(&text, "mag_z"), "0.001");
    assert_eq!(field(&text, "force"), point.force().to_string());
}

#[test]
fn new_reading_is_stamped_with_date_and_time() {
    let mut rng = rand::rng();
    let point = DataPoint::new(&mut rng, &Channels::default(), axes_of(SAMPLE));
    let stamp = point.timestamp();
    assert!(stamp_text(stamp));
    assert_ne!(stamp, TIMESTAMP_FORMAT);
    let bytes = stamp.as_bytes();
    assert_eq!(bytes.len(), 29);
    for (i, b) in bytes.iter().enumerate() {
        match i {
            4 | 7 => assert_eq!(*b, b'-'),
            10 => assert_eq!(*b, b' '),
            13 | 16 => assert_eq!(*b, b':'),
            19 => assert_eq!(*b, b'.'),
            _ => assert!(b.is_ascii_digit()),
        }
    }
}

#[test]
fn timestamps_do_not_go_back() {
    let mut rng = rand::rng();
    let channels = Channels::default();
    let mut last = String::new();
    for _ in 0..200 {
        let point = DataPoint::new(&mut rng, &channels, axes_of(SAMPLE));
        let stamp = String::from(point.timestamp());
        assert!(last <= stamp);
        last = stamp;
    }
}
