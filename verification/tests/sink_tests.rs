use scissors_console::scan::EncoderReading;
use scissors_console::sink::{
    encoder_line, header_lines, hyphenate, open_buffered_file, sink_file_name, sink_plan,
};

#[test]
fn colons_become_hyphens() {
    assert_eq!(hyphenate("2019-07-11T13:45:00-05:00"), "2019-07-11T13-45-00-05-00");
    assert_eq!(hyphenate(":::"), "---");
    assert_eq!(hyphenate(""), "");
    assert_eq!(hyphenate("no colon"), "no colon");
    assert_eq!(hyphenate("zeit: zwölf:é"), "zeit- zwölf-é");
}

#[test]
fn file_name_is_sink_underscore_stamp() {
    assert_eq!(
        sink_file_name("adc", "2012-02-22T07:53:18-07:00"),
        "adc_2012-02-22T07-53-18-07-00"
    );
    assert_eq!(sink_file_name("enc", "2012-02-22T14:53:18Z"), "enc_2012-02-22T14-53-18Z");
    assert_eq!(sink_file_name("", ""), "_");
}

#[test]
fn analog_header() {
    assert_eq!(
        header_lines("adc", "Thu, 22 Mar 2012 07:53:18 PST", 1000),
        vec![
            "%Thu, 22 Mar 2012 07:53:18 PST",
            "%Target Sample Rate: 1000 hz",
            "%timestamp, grasperLoadCell1, grasperLoadCell2",
            "%[ns], [V], [V]",
            "%[V]olts resolve to approximately 0.5 kg/V",
        ]
    );
}

#[test]
fn encoder_header() {
    assert_eq!(
        header_lines("enc", "Thu, 22 Mar 2012 14:53:18 GMT", 500),
        vec![
            "%Thu, 22 Mar 2012 14:53:18 GMT",
            "%Target Sample Rate: 500 hz",
            "%timestamp, encoderCount",
            "%[ns], [count]",
            "%1 count resolves to approximately 0.05 degrees of rotation",
        ]
    );
}

#[test]
fn other_sinks_get_the_date_line_only() {
    assert_eq!(header_lines("log", "today", 1000), vec!["%today"]);
    assert_eq!(header_lines("ADC", "today", 1000), vec!["%today"]);
    assert_eq!(header_lines("", "", 0), vec!["%"]);
}

#[test]
fn header_lines_hold_no_line_feed() {
    for name in ["adc", "enc", "other"] {
        for line in header_lines(name, "Thu, 22 Mar 2012 07:53:18 PST", 48_000) {
            assert!(line.starts_with('%'));
            assert!(!line.contains('\n'));
        }
    }
}

#[test]
fn encoder_line_is_timestamp_comma_position() {
    assert_eq!(encoder_line(&EncoderReading::new(0, 0)), "0,0");
    assert_eq!(encoder_line(&EncoderReading::new(1_200_000_000, 42)), "1200000000,42");
    assert_eq!(encoder_line(&EncoderReading::new(77, -5)), "77,-5");
    assert_eq!(
        encoder_line(&EncoderReading::new(u64::MAX, i32::MIN)),
        "18446744073709551615,-2147483648"
    );
    assert_eq!(encoder_line(&EncoderReading::new(10, i32::MAX)), "10,2147483647");
}

#[test]
fn encoder_lines_are_complete_and_well_formed() {
    for (timestamp, pos) in [(0u64, 0i32), (5, -1), (999, 1000), (u64::MAX, i32::MIN)] {
        let line = encoder_line(&EncoderReading::new(timestamp, pos));
        let fields: Vec<&str> = line.split(',').collect();
        assert_eq!(fields.len(), 2);
        assert_eq!(fields[0].parse::<u64>(), Ok(timestamp));
        assert_eq!(fields[1].parse::<i32>(), Ok(pos));
        assert!(!line.contains('\n'));
    }
}

#[test]
fn plan_joins_name_and_header() {
    let plan = sink_plan("enc", "2012-02-22T14:53:18Z", "Wed, 22 Feb 2012 14:53:18 GMT", 1000);
    assert_eq!(plan.file_name, "enc_2012-02-22T14-53-18Z");
    assert_eq!(plan.header.len(), 5);
    assert_eq!(plan.header[0], "%Wed, 22 Feb 2012 14:53:18 GMT");
    assert_eq!(plan.header[1], "%Target Sample Rate: 1000 hz");
}

#[test]
fn plan_made_now_is_stamped_with_the_current_time() {
    let plan = open_buffered_file("adc", 1000);
    assert!(plan.file_name.starts_with("adc_2"));
    assert!(!plan.file_name.contains(':'));
    assert!(plan.file_name.contains('T'));
    assert!(plan.file_name.len() >= "adc_2012-02-22T14-53-18Z".len());
    assert_eq!(plan.header.len(), 5);
    assert!(plan.header[0].starts_with('%'));
    assert!(plan.header[0].len() > "%Thu, 22 Mar 2012".len());
    assert!(plan.header[0].contains(", "));
    assert_eq!(plan.header[1], "%Target Sample Rate: 1000 hz");
}
