use automotive::bitrate::{
    calc_default_sjw, check_ranges, check_sjw, update_sample_point, validate_timing_const, AdapterTimingConst,
    BitTimingConst, BitrateBuilder, BitrateError,
};
use automotive::vector::{BitTiming, BitTimingFd, Error as VectorError};

const PEAK_NOMINAL_BTC: BitTimingConst = BitTimingConst {
    clock_hz: 80_000_000,
    tseg1_min: 1,
    tseg1_max: 1 << 8,
    tseg2_min: 1,
    tseg2_max: 1 << 7,
    sjw_max: 1 << 7,
    brp_min: 1,
    brp_max: 1 << 10,
    brp_inc: 1,
};

const PEAK_FD_DATA_BTC: BitTimingConst = BitTimingConst {
    clock_hz: 80_000_000,
    tseg1_min: 1,
    tseg1_max: 1 << 5,
    tseg2_min: 1,
    tseg2_max: 1 << 4,
    sjw_max: 1 << 4,
    brp_min: 1,
    brp_max: 1 << 10,
    brp_inc: 1,
};

const PEAK_TIMING_WITH_FD: AdapterTimingConst = AdapterTimingConst {
    nominal: PEAK_NOMINAL_BTC,
    data: Some(PEAK_FD_DATA_BTC),
};

const PEAK_TIMING_NO_FD: AdapterTimingConst = AdapterTimingConst {
    nominal: PEAK_NOMINAL_BTC,
    data: None,
};

#[test]
fn bitrate_mode_500k_800() {
    let cfg = BitrateBuilder::new(PEAK_TIMING_WITH_FD)
        .bitrate(500_000)
        .sample_point(800)
        .build()
        .unwrap();

    assert_eq!(cfg.bitrate, 500_000);
    assert_eq!(cfg.sample_point, 800);
    assert!(cfg.timing.brp >= PEAK_NOMINAL_BTC.brp_min);
    assert!(cfg.timing.brp <= PEAK_NOMINAL_BTC.brp_max);
}

#[test]
fn from_adapter_type_constructor() {
    let cfg = BitrateBuilder::new(PEAK_TIMING_WITH_FD)
        .bitrate(500_000)
        .sample_point(800)
        .build()
        .unwrap();

    assert_eq!(cfg.bitrate, 500_000);
}

#[test]
fn bitrate_mode_default_sample_point() {
    let b = BitrateBuilder::new(PEAK_TIMING_WITH_FD);
    let cfg_high_default = b.bitrate(2_000_000).build().unwrap();
    let cfg_high_explicit = b.bitrate(2_000_000).sample_point(750).build().unwrap();
    let cfg_medium_default = b.bitrate(625_000).build().unwrap();
    let cfg_medium_explicit = b.bitrate(625_000).sample_point(800).build().unwrap();
    let cfg_low_default = b.bitrate(500_000).build().unwrap();
    let cfg_low_explicit = b.bitrate(500_000).sample_point(875).build().unwrap();

    assert_eq!(cfg_high_default, cfg_high_explicit);
    assert_eq!(cfg_medium_default, cfg_medium_explicit);
    assert_eq!(cfg_low_default, cfg_low_explicit);
}

#[test]
fn bitrate_mode_allows_sjw_override() {
    let cfg = BitrateBuilder::new(PEAK_TIMING_WITH_FD)
        .bitrate(500_000)
        .sample_point(800)
        .sjw(1)
        .build()
        .unwrap();

    assert_eq!(cfg.timing.sjw, 1);
}

#[test]
fn direct_mode() {
    let cfg = BitrateBuilder::new(PEAK_TIMING_WITH_FD)
        .brp(8)
        .tseg1(15)
        .tseg2(4)
        .build()
        .unwrap();

    assert_eq!(cfg.bitrate, 500_000);
    assert_eq!(cfg.sample_point, 800);
    assert_eq!(cfg.timing.sjw, 2);
    assert_eq!(cfg.bit_time_tq(), 20);
    assert_eq!(cfg.data_bit_time_tq(), None);
}

#[test]
fn mixed_modes_fail() {
    let err = BitrateBuilder::new(PEAK_TIMING_WITH_FD)
        .bitrate(500_000)
        .tseg1(15)
        .build()
        .unwrap_err();

    assert_eq!(err, BitrateError::MixedConfiguration);
}

#[test]
fn invalid_sample_point_rejected() {
    let err = BitrateBuilder::new(PEAK_TIMING_WITH_FD)
        .bitrate(500_000)
        .sample_point(1000)
        .build()
        .unwrap_err();

    assert_eq!(err, BitrateError::InvalidSamplePoint);
}

#[test]
fn can_fd_data_phase_bitrate_and_sample_point() {
    let cfg = BitrateBuilder::new(PEAK_TIMING_WITH_FD)
        .bitrate(500_000)
        .sample_point(800)
        .data_bitrate(2_000_000)
        .data_sample_point(750)
        .build()
        .unwrap();

    assert_eq!(cfg.bitrate, 500_000);
    assert_eq!(cfg.sample_point, 800);

    assert_eq!(cfg.data_bitrate, Some(2_000_000));
    assert!(cfg.data_timing.is_some());
    assert_eq!(cfg.data_sample_point, Some(750));
}

#[test]
fn data_sample_point_requires_data_bitrate() {
    let err = BitrateBuilder::new(PEAK_TIMING_WITH_FD)
        .bitrate(500_000)
        .data_sample_point(750)
        .build()
        .unwrap_err();

    assert_eq!(err, BitrateError::DataSamplePointRequiresDataBitrate);
}

#[test]
fn data_sjw_requires_data_bitrate() {
    let err = BitrateBuilder::new(PEAK_TIMING_WITH_FD)
        .bitrate(500_000)
        .data_sjw(1)
        .build()
        .unwrap_err();

    assert_eq!(err, BitrateError::DataSjwRequiresDataBitrate);
}

#[test]
fn data_bitrate_must_not_be_lower_than_nominal() {
    let err = BitrateBuilder::new(PEAK_TIMING_WITH_FD)
        .bitrate(500_000)
        .data_bitrate(250_000)
        .build()
        .unwrap_err();

    match err {
        BitrateError::DataBitrateLowerThanNominal {
            data_bitrate,
            arbitration_bitrate,
        } => {
            assert_eq!(arbitration_bitrate, 500_000);
            assert!(data_bitrate < arbitration_bitrate);
        }
        _ => panic!("unexpected error: {err:?}"),
    }
}

#[test]
fn data_bitrate_not_supported_by_adapter() {
    let err = BitrateBuilder::new(PEAK_TIMING_NO_FD)
        .bitrate(500_000)
        .data_bitrate(2_000_000)
        .build()
        .unwrap_err();

    assert_eq!(err, BitrateError::DataBitrateNotSupported);
}

#[test]
fn round_trip_bitrate_to_direct_keeps_bitrate_and_sample_point() {
    let cfg_from_bitrate = BitrateBuilder::new(PEAK_TIMING_WITH_FD)
        .bitrate(625_000)
        .sample_point(820)
        .build()
        .unwrap();

    let cfg_from_direct = BitrateBuilder::new(PEAK_TIMING_WITH_FD)
        .brp(cfg_from_bitrate.timing.brp)
        .tseg1(cfg_from_bitrate.timing.tseg1)
        .tseg2(cfg_from_bitrate.timing.tseg2)
        .sjw(cfg_from_bitrate.timing.sjw)
        .build()
        .unwrap();

    assert_eq!(cfg_from_direct.bitrate, cfg_from_bitrate.bitrate);
    assert_eq!(cfg_from_direct.sample_point, cfg_from_bitrate.sample_point);
}

#[test]
fn missing_configuration_and_fields() {
    let b = BitrateBuilder::new(PEAK_TIMING_WITH_FD);
    assert_eq!(b.build().unwrap_err(), BitrateError::MissingConfiguration);
    assert_eq!(b.tseg1(15).tseg2(4).build().unwrap_err(), BitrateError::MissingDirectField("brp"));
    assert_eq!(b.brp(8).tseg2(4).build().unwrap_err(), BitrateError::MissingDirectField("tseg1"));
    assert_eq!(b.brp(8).tseg1(15).sample_point(800).build().unwrap_err(), BitrateError::SamplePointRequiresBitrate);
    assert_eq!(b.bitrate(0).build().unwrap_err(), BitrateError::InvalidBitrate);
    let mut bad = PEAK_TIMING_WITH_FD;
    bad.nominal.clock_hz = 0;
    assert_eq!(BitrateBuilder::new(bad).bitrate(500_000).build().unwrap_err(), BitrateError::InvalidClock);
}

#[test]
fn bitrate_error_too_high_and_no_solution() {
    // 80 MHz cannot reach 333 333 bit/s closer than 0.5% with tiny segments.
    let narrow = AdapterTimingConst {
        nominal: BitTimingConst { tseg1_max: 2, tseg2_max: 1, brp_max: 2, ..PEAK_NOMINAL_BTC },
        data: None,
    };
    let err = BitrateBuilder::new(narrow).bitrate(1_000_000).build().unwrap_err();
    assert_eq!(err, BitrateError::NoSolution { bitrate: 1_000_000 });
    let coarse = AdapterTimingConst {
        nominal: BitTimingConst { tseg1_min: 4, tseg1_max: 4, tseg2_min: 2, tseg2_max: 2, ..PEAK_NOMINAL_BTC },
        data: None,
    };
    match BitrateBuilder::new(coarse).bitrate(333_333).build() {
        Err(BitrateError::BitrateErrorTooHigh { max_hundredth_percent, .. }) => assert_eq!(max_hundredth_percent, 50),
        other => panic!("unexpected result: {other:?}"),
    }
}

#[test]
fn range_and_sjw_checks() {
    assert_eq!(validate_timing_const(&PEAK_NOMINAL_BTC), Ok(()));
    assert_eq!(
        check_ranges(&PEAK_NOMINAL_BTC, 0, 10, 10),
        Err(BitrateError::BrpOutOfRange { brp: 0, min: 1, max: 1024 })
    );
    assert_eq!(
        check_ranges(&PEAK_NOMINAL_BTC, 1, 300, 10),
        Err(BitrateError::Tseg1OutOfRange { tseg1: 300, min: 1, max: 256 })
    );
    assert_eq!(
        check_ranges(&PEAK_NOMINAL_BTC, 1, 10, 200),
        Err(BitrateError::Tseg2OutOfRange { tseg2: 200, min: 1, max: 128 })
    );
    let inc2 = BitTimingConst { brp_inc: 2, ..PEAK_NOMINAL_BTC };
    assert_eq!(check_ranges(&inc2, 3, 10, 10), Err(BitrateError::InvalidBrpIncrement { brp: 3, brp_inc: 2 }));
    assert_eq!(check_sjw(&PEAK_NOMINAL_BTC, 200, 10, 10), Err(BitrateError::SjwGreaterThanMax { sjw: 200, max_sjw: 128 }));
    assert_eq!(check_sjw(&PEAK_NOMINAL_BTC, 6, 10, 10), Err(BitrateError::SjwGreaterThanPhaseSeg1 { sjw: 6, phase_seg1: 5 }));
    assert_eq!(check_sjw(&PEAK_NOMINAL_BTC, 5, 10, 4), Err(BitrateError::SjwGreaterThanPhaseSeg2 { sjw: 5, phase_seg2: 4 }));
    assert_eq!(calc_default_sjw(15, 4), 2);
    assert_eq!(calc_default_sjw(1, 1), 1);
    let c = update_sample_point(&PEAK_NOMINAL_BTC, 800, 19);
    assert_eq!((c.tseg1, c.tseg2, c.sample_point, c.sample_point_error), (15, 4, 800, 0));
}

#[test]
fn vector_bit_timing() {
    let t = BitTiming::new(16_000_000, 2, 13, 2, 1, 1, true).unwrap();
    assert_eq!(t.btr0(), 0x01);
    assert_eq!(t.btr1(), 0x1c);
    let t3 = BitTiming::new(16_000_000, 2, 13, 2, 2, 3, false).unwrap();
    assert_eq!(t3.btr0(), 0x41);
    assert_eq!(t3.btr1(), 0x9c);
    assert!(matches!(BitTiming::new(16_000_000, 0, 13, 2, 1, 1, false), Err(VectorError::BitTimingError(_))));
    assert!(matches!(BitTiming::new(16_000_000, 2, 13, 2, 3, 1, false), Err(VectorError::BitTimingError(_))));
    assert!(matches!(BitTiming::new(16_000_000, 2, 2, 8, 1, 1, false), Err(VectorError::BitTimingError(_))));
    assert!(matches!(BitTiming::new(16_000_000, 2, 13, 2, 1, 2, false), Err(VectorError::BitTimingError(_))));
    assert!(matches!(BitTiming::new(16_000_000, 40, 13, 2, 1, 1, true), Err(VectorError::BitTimingError(_))));
}

#[test]
fn vector_bit_timing_fd() {
    let t = BitTimingFd::new(80_000_000, 1, 119, 40, 40, 1, 29, 10, 10, false).unwrap();
    assert_eq!(t.nom_bitrate(), 500_000);
    assert_eq!(t.data_bitrate(), 2_000_000);
    assert!(BitTimingFd::new(80_000_000, 0, 119, 40, 40, 1, 29, 10, 10, false).is_err());
    // Data phase slower than the nominal phase.
    assert!(BitTimingFd::new(80_000_000, 4, 119, 40, 40, 8, 119, 40, 10, false).is_err());
    // Strict limits on the bit times.
    assert!(BitTimingFd::new(80_000_000, 1, 119, 40, 40, 1, 29, 10, 10, true).is_err());
    assert!(BitTimingFd::new(80_000_000, 2, 59, 20, 20, 1, 14, 5, 5, true).is_ok());
}
