use jitoliq::error::{BundleError, ConfigurationIssue, ProtocolIssue};
use jitoliq::tip_floor::{clamp_lamports, get_tip_floor_lamports, TipFloor, LAMPORTS_PER_SOL};
use jitoliq::JitoBundleClient;

fn lamports(sol: f64) -> u64 {
    (sol * LAMPORTS_PER_SOL as f64).ceil() as u64
}

fn sample(ema: Option<u64>) -> TipFloor {
    TipFloor {
        time: Some("2024-01-01T00:00:00Z".to_string()),
        landed_tips_25th_percentile: 1_000,
        landed_tips_50th_percentile: 50_000,
        landed_tips_75th_percentile: 75_000,
        landed_tips_95th_percentile: 950_000,
        landed_tips_99th_percentile: 9_900_000,
        ema_landed_tips_50th_percentile: ema,
    }
}

#[test]
fn fifty_millionths_are_fifty_thousand_lamports() {
    assert_eq!(LAMPORTS_PER_SOL, 1_000_000_000);
    let floor = TipFloor {
        time: None,
        landed_tips_25th_percentile: lamports(0.00001),
        landed_tips_50th_percentile: lamports(0.00005),
        landed_tips_75th_percentile: lamports(0.0001),
        landed_tips_95th_percentile: lamports(0.001),
        landed_tips_99th_percentile: lamports(0.01),
        ema_landed_tips_50th_percentile: None,
    };
    assert_eq!(get_tip_floor_lamports(&vec![floor], 50, false, 0, u64::MAX), Ok(50_000));
}

#[test]
fn fractions_of_a_lamport_are_rounded_up() {
    assert_eq!(lamports(0.0000000011), 2);
    assert_eq!(lamports(0.000000001), 1);
    assert_eq!(lamports(0.0), 0);
}

#[test]
fn percentile_ten_is_a_configuration_error() {
    assert_eq!(
        get_tip_floor_lamports(&vec![sample(None)], 10, false, 0, u64::MAX),
        Err(BundleError::ConfigurationError(ConfigurationIssue::UnsupportedPercentile(10)))
    );
    assert_eq!(
        get_tip_floor_lamports(&vec![sample(Some(1))], 10, true, 0, u64::MAX),
        Err(BundleError::ConfigurationError(ConfigurationIssue::UnsupportedPercentile(10)))
    );
}

#[test]
fn only_five_percentiles_exist() {
    let floor = sample(None);
    for p in 0u8..=255 {
        let expected = match p {
            25 => Ok(1_000),
            50 => Ok(50_000),
            75 => Ok(75_000),
            95 => Ok(950_000),
            99 => Ok(9_900_000),
            _ => Err(BundleError::ConfigurationError(ConfigurationIssue::UnsupportedPercentile(p))),
        };
        assert_eq!(floor.get_landed_percentile(p), expected);
        assert_eq!(get_tip_floor_lamports(&vec![sample(None)], p, false, 0, u64::MAX), expected);
    }
}

#[test]
fn moving_average_is_taken_for_the_fiftieth_percentile_only() {
    let floors = vec![sample(Some(60_000))];
    assert_eq!(get_tip_floor_lamports(&floors, 50, true, 0, u64::MAX), Ok(60_000));
    assert_eq!(get_tip_floor_lamports(&floors, 50, false, 0, u64::MAX), Ok(50_000));
    assert_eq!(get_tip_floor_lamports(&floors, 75, true, 0, u64::MAX), Ok(75_000));
    assert_eq!(get_tip_floor_lamports(&floors, 25, true, 0, u64::MAX), Ok(1_000));
}

#[test]
fn missing_moving_average_falls_back_to_the_percentile() {
    assert_eq!(get_tip_floor_lamports(&vec![sample(None)], 50, true, 0, u64::MAX), Ok(50_000));
}

#[test]
fn tip_is_brought_into_the_range() {
    let floors = vec![sample(None)];
    assert_eq!(get_tip_floor_lamports(&floors, 50, false, 60_000, 70_000), Ok(60_000));
    assert_eq!(get_tip_floor_lamports(&floors, 50, false, 10_000, 40_000), Ok(40_000));
    assert_eq!(get_tip_floor_lamports(&floors, 50, false, 50_000, 50_000), Ok(50_000));
    assert_eq!(get_tip_floor_lamports(&floors, 50, false, 10_000, 90_000), Ok(50_000));
}

#[test]
fn upper_bound_wins_over_a_lower_bound_above_it() {
    assert_eq!(clamp_lamports(5, 100, 10), 10);
    assert_eq!(clamp_lamports(50, 100, 10), 10);
    assert_eq!(clamp_lamports(500, 100, 10), 10);
    assert_eq!(clamp_lamports(5, 10, 100), 10);
    assert_eq!(clamp_lamports(500, 10, 100), 100);
    assert_eq!(clamp_lamports(u64::MAX, 0, u64::MAX), u64::MAX);
}

#[test]
fn response_without_a_sample_breaks_the_protocol() {
    assert_eq!(
        get_tip_floor_lamports(&vec![], 50, false, 0, u64::MAX),
        Err(BundleError::ProtocolError(ProtocolIssue::EmptyTipFloor))
    );
    assert_eq!(
        get_tip_floor_lamports(&vec![], 10, true, 0, u64::MAX),
        Err(BundleError::ProtocolError(ProtocolIssue::EmptyTipFloor))
    );
}

#[test]
fn first_sample_is_the_one_that_counts() {
    let mut second = sample(None);
    second.landed_tips_50th_percentile = 1;
    assert_eq!(get_tip_floor_lamports(&vec![sample(None), second], 50, false, 0, u64::MAX), Ok(50_000));
}

#[test]
fn client_reads_the_tip_floor_alike() {
    let client = JitoBundleClient::new(vec![]);
    assert_eq!(client.get_tip_floor_lamports(&vec![sample(Some(7))], 50, true, 10, 20), Ok(10));
    assert_eq!(
        client.get_tip_floor_lamports(&vec![sample(None)], 51, false, 10, 20),
        Err(BundleError::ConfigurationError(ConfigurationIssue::UnsupportedPercentile(51)))
    );
}
