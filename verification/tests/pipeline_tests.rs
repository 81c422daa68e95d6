use scissors_console::pipeline::{ChannelPipeline, Dropped};
use scissors_console::scan::BatchedScan;

fn synthetic_batches(count: usize, batch_size: usize, sample_rate: u64) -> Vec<BatchedScan<u32>> {
    let period = 1_000_000_000 / sample_rate;
    (0..count)
        .map(|k| BatchedScan {
            samples: (0..batch_size).map(|i| (k * batch_size + i) as u32).collect(),
            timestamp: 1_000_000_000 + ((k + 1) * batch_size) as u64 * period,
        })
        .collect()
}

fn first_samples(shown: &[Vec<scissors_console::scan::ScanData<u32>>]) -> Vec<u32> {
    shown.iter().map(|records| records[0].data).collect()
}

#[test]
fn round_trip_yields_every_sample_once_in_strict_time_order() {
    let (count, batch_size, rate) = (7usize, 100usize, 1000u64);
    let batches = synthetic_batches(count, batch_size, rate);
    let mut pipeline = ChannelPipeline::new(rate, 10);
    let out = pipeline.run(&batches);
    assert_eq!(out.dropped, 0);
    assert_eq!(out.file.len(), count * batch_size);
    for (position, record) in out.file.iter().enumerate() {
        assert_eq!(record.data, position as u32);
    }
    for pair in out.file.windows(2) {
        assert!(pair[0].timestamp < pair[1].timestamp);
        assert_eq!(pair[1].timestamp - pair[0].timestamp, 1_000_000);
    }
}

#[test]
fn one_second_at_one_kilohertz_gives_one_display_update_and_a_thousand_lines() {
    // sample rate 1000, batches of 100, so ten batches a second; stride 10
    let batches = synthetic_batches(10, 100, 1000);
    let mut pipeline = ChannelPipeline::new(1000, 10);
    let out = pipeline.run(&batches);
    assert_eq!(out.dropped, 0);
    assert_eq!(out.file.len(), 1000);
    assert_eq!(out.display.len(), 1);
    assert_eq!(out.display[0].len(), 100);
    assert_eq!(first_samples(&out.display), vec![0]);
}

#[test]
fn three_seconds_give_three_display_updates() {
    let batches = synthetic_batches(30, 100, 1000);
    let mut pipeline = ChannelPipeline::new(1000, 10);
    let out = pipeline.run(&batches);
    assert_eq!(out.file.len(), 3000);
    assert_eq!(first_samples(&out.display), vec![0, 1000, 2000]);
}

#[test]
fn display_is_shown_every_stride_th_batch_of_the_whole_run() {
    let batches = synthetic_batches(9, 5, 1000);
    let mut pipeline = ChannelPipeline::new(1000, 4);
    let out = pipeline.run(&batches);
    // batches 0, 4 and 8, whose first samples are 0, 20 and 40
    assert_eq!(first_samples(&out.display), vec![0, 20, 40]);
    for shown in &out.display {
        let first = shown[0].data as usize;
        assert_eq!(shown.len(), 5);
        for (i, record) in shown.iter().enumerate() {
            assert_eq!(record.data, (first + i) as u32);
            assert_eq!(record.timestamp, out.file[first + i].timestamp);
        }
    }
}

#[test]
fn display_count_is_the_batch_count_over_the_stride_rounded_up() {
    for count in 0..25usize {
        for stride in 1..8usize {
            let batches = synthetic_batches(count, 3, 1000);
            let mut pipeline = ChannelPipeline::new(1000, stride);
            let out = pipeline.run(&batches);
            assert_eq!(out.file.len(), count * 3);
            assert_eq!(out.display.len(), (count + stride - 1) / stride);
            let expected: Vec<u32> =
                (0..count).step_by(stride).map(|batch| (batch * 3) as u32).collect();
            assert_eq!(first_samples(&out.display), expected);
        }
    }
}

#[test]
fn stride_one_shows_every_batch() {
    let batches = synthetic_batches(4, 2, 1000);
    let mut pipeline = ChannelPipeline::new(1000, 1);
    let out = pipeline.run(&batches);
    assert_eq!(first_samples(&out.display), vec![0, 2, 4, 6]);
}

#[test]
fn deliver_one_batch_at_a_time_matches_a_whole_run() {
    let batches = synthetic_batches(6, 5, 500);
    let mut whole = ChannelPipeline::new(500, 3);
    let expected = whole.run(&batches);
    let mut stepwise = ChannelPipeline::new(500, 3);
    let mut file = Vec::new();
    let mut display = Vec::new();
    let mut shown_flags = Vec::new();
    for batch in &batches {
        let delivery = stepwise.deliver(batch).expect("a batch that fits");
        assert_eq!(delivery.file.len(), 5);
        shown_flags.push(delivery.display);
        if delivery.display {
            display.push(delivery.file[0].data);
        }
        file.extend(delivery.file.iter().map(|r| (r.timestamp, r.data)));
    }
    let expected_file: Vec<(u64, u32)> =
        expected.file.iter().map(|r| (r.timestamp, r.data)).collect();
    assert_eq!(file, expected_file);
    assert_eq!(display, first_samples(&expected.display));
    assert_eq!(shown_flags, vec![true, false, false, true, false, false]);
}

#[test]
fn the_display_stride_carries_over_from_run_to_run() {
    let mut pipeline = ChannelPipeline::new(1000, 4);
    let first = pipeline.run(&synthetic_batches(3, 2, 1000));
    assert_eq!(first.display.len(), 1);
    // three batches are behind; the next to be shown is the fifth
    let second = pipeline.run(&synthetic_batches(3, 2, 1000));
    assert_eq!(first_samples(&second.display), vec![2]);
}

#[test]
fn a_batch_that_reaches_before_time_zero_is_dropped() {
    let mut pipeline = ChannelPipeline::new(1000, 2);
    let early = BatchedScan { samples: vec![1u32, 2, 3], timestamp: 1_000_000 };
    assert_eq!(pipeline.deliver(&early).err(), Some(Dropped::BeforeTimeZero));
}

#[test]
fn a_dropped_batch_does_not_shift_the_display_stride() {
    let early = BatchedScan { samples: vec![100u32, 101, 102], timestamp: 5 };
    let fine = |first: u32, timestamp: u64| BatchedScan {
        samples: vec![first, first + 1, first + 2],
        timestamp,
    };
    let batches = vec![
        fine(0, 1_000_000_000),
        early,
        fine(3, 2_000_000_000),
        fine(6, 3_000_000_000),
    ];
    let mut pipeline = ChannelPipeline::new(1000, 2);
    let out = pipeline.run(&batches);
    assert_eq!(out.dropped, 1);
    let written: Vec<u32> = out.file.iter().map(|r| r.data).collect();
    assert_eq!(written, vec![0, 1, 2, 3, 4, 5, 6, 7, 8]);
    // forwarded batches 0 and 2 are shown: the first and the last
    assert_eq!(first_samples(&out.display), vec![0, 6]);
}

#[test]
fn an_empty_run_writes_nothing() {
    let mut pipeline = ChannelPipeline::new(1000, 10);
    let out = pipeline.run(&Vec::<BatchedScan<u32>>::new());
    assert_eq!(out.dropped, 0);
    assert!(out.file.is_empty());
    assert!(out.display.is_empty());
}

#[test]
fn an_empty_batch_is_forwarded_with_no_record() {
    let mut pipeline = ChannelPipeline::new(1000, 2);
    let empty: BatchedScan<u32> = BatchedScan { samples: Vec::new(), timestamp: 0 };
    let delivery = pipeline.deliver(&empty).expect("an empty batch fits");
    assert!(delivery.file.is_empty());
    assert!(delivery.display);
    let next = BatchedScan { samples: vec![7u32], timestamp: 10 };
    let delivery = pipeline.deliver(&next).expect("a batch that fits");
    assert_eq!(delivery.file.len(), 1);
    assert!(!delivery.display);
}
