use probes::cpu::proc::{parse_proc_stat, read_and_parse_proc_stat, CpuMeasurement, CpuStat};
use probes::ProbeError;

const PROC_STAT: &str = "cpu  10 3 7 6 5 4 3 1 2 1\ncpu0 10 3 7 6 5 4 3 1 2 1\nintr 114930548 113199788 3 0 5 263 0 4 [...]\nctxt 1990473\nbtime 1062191376\n";
const PROC_STAT_PARTIAL: &str = "cpu  10 3 7 6 5\ncpu0 10 3 7 6 5\n";
const PROC_STAT_INCOMPLETE: &str = "cpu  10 3 7\n";
const PROC_STAT_GARBAGE: &str = "cpu  aa bb cc dd ee\n";

#[test]
fn test_read_proc_measurement() {
    let measurement = read_and_parse_proc_stat(PROC_STAT).unwrap();
    let cpu = measurement.stat;
    assert_eq!(cpu.total, 39);
    assert_eq!(cpu.user, 8);
    assert_eq!(cpu.nice, 2);
    assert_eq!(cpu.system, 7);
    assert_eq!(cpu.idle, 6);
    assert_eq!(cpu.iowait, 5);
    assert_eq!(cpu.irq, 4);
    assert_eq!(cpu.softirq, 3);
    assert_eq!(cpu.steal, 1);
    assert_eq!(cpu.guest, 2);
    assert_eq!(cpu.guestnice, 1);
}

#[test]
fn test_read_proc_measurement_from_partial() {
    let measurement = read_and_parse_proc_stat(PROC_STAT_PARTIAL).unwrap();
    let cpu = measurement.stat;
    assert_eq!(cpu.total, 31);
    assert_eq!(cpu.user, 10);
    assert_eq!(cpu.nice, 3);
    assert_eq!(cpu.system, 7);
    assert_eq!(cpu.idle, 6);
    assert_eq!(cpu.iowait, 5);
    assert_eq!(cpu.irq, 0);
    assert_eq!(cpu.softirq, 0);
    assert_eq!(cpu.steal, 0);
    assert_eq!(cpu.guest, 0);
    assert_eq!(cpu.guestnice, 0);
}

#[test]
fn proc_test_read_and_parse_proc_stat_incomplete() {
    match read_and_parse_proc_stat(PROC_STAT_INCOMPLETE) {
        Err(ProbeError::UnexpectedContent(_)) => (),
        r => panic!("Unexpected result: {:?}", r),
    }
}

#[test]
fn proc_test_read_and_parse_proc_stat_garbage() {
    match read_and_parse_proc_stat(PROC_STAT_GARBAGE) {
        Err(ProbeError::UnexpectedContent(_)) => (),
        r => panic!("Unexpected result: {:?}", r),
    }
}

#[test]
fn cpu_test_read_and_parse_proc_stat_incomplete() {
    match read_and_parse_proc_stat("cpu 0 1 2 3\n") {
        Err(ProbeError::UnexpectedContent(_)) => (),
        r => panic!("Unexpected result: {:?}", r),
    }
}

#[test]
fn cpu_test_read_and_parse_proc_stat_garbage() {
    match read_and_parse_proc_stat("cpu 0 1 garbage 3 4\n") {
        Err(ProbeError::UnexpectedContent(_)) => (),
        r => panic!("Unexpected result: {:?}", r),
    }
}

#[test]
fn parse_proc_stat_keeps_time() {
    let measurement = parse_proc_stat(PROC_STAT, 12345).unwrap();
    assert_eq!(12345, measurement.precise_time_ns);
    assert_eq!(39, measurement.stat.total);
}

#[test]
fn empty_proc_stat_is_unexpected() {
    match parse_proc_stat("", 1) {
        Err(ProbeError::UnexpectedContent(_)) => (),
        r => panic!("Unexpected result: {:?}", r),
    }
}

#[test]
fn guest_above_user_is_unexpected() {
    match parse_proc_stat("cpu 1 0 0 0 0 0 0 0 5 0\n", 1) {
        Err(ProbeError::UnexpectedContent(_)) => (),
        r => panic!("Unexpected result: {:?}", r),
    }
}

#[test]
fn proc_test_calculate_per_minute_wrong_times() {
    let measurement1 = CpuMeasurement {
        precise_time_ns: 90_000_000_000,
        stat: CpuStat {
            total: 0,
            user: 0,
            nice: 0,
            system: 0,
            idle: 0,
            iowait: 0,
            irq: 0,
            softirq: 0,
            steal: 0,
            guest: 0,
            guestnice: 0,
        },
    };

    let measurement2 = CpuMeasurement {
        precise_time_ns: 60_000_000_000,
        stat: CpuStat {
            total: 0,
            user: 0,
            nice: 0,
            system: 0,
            idle: 0,
            iowait: 0,
            irq: 0,
            softirq: 0,
            steal: 0,
            guest: 0,
            guestnice: 0,
        },
    };

    match measurement1.calculate_per_minute(&measurement2) {
        Err(ProbeError::InvalidInput(_)) => (),
        r => panic!("Unexpected result: {:?}", r),
    }
}

#[test]
fn proc_test_calculate_per_minute_full_minute() {
    let measurement1 = CpuMeasurement {
        precise_time_ns: 60_000_000_000,
        stat: CpuStat {
            total: 6380,
            user: 1000,
            nice: 1100,
            system: 1200,
            idle: 1300,
            iowait: 1400,
            irq: 50,
            softirq: 10,
            steal: 20,
            guest: 200,
            guestnice: 100,
        },
    };

    let measurement2 = CpuMeasurement {
        precise_time_ns: 120_000_000_000,
        stat: CpuStat {
            total: 6440,
            user: 1006,
            nice: 1106,
            system: 1206,
            idle: 1306,
            iowait: 1406,
            irq: 56,
            softirq: 16,
            steal: 26,
            guest: 206,
            guestnice: 106,
        },
    };

    let expected = CpuStat {
        total: 60,
        user: 6,
        nice: 6,
        system: 6,
        idle: 6,
        iowait: 6,
        irq: 6,
        softirq: 6,
        steal: 6,
        guest: 6,
        guestnice: 6,
    };

    let stat = measurement1.calculate_per_minute(&measurement2).unwrap();

    assert_eq!(stat, expected);
}

#[test]
fn proc_test_calculate_per_minute_partial_minute() {
    let measurement1 = CpuMeasurement {
        precise_time_ns: 60_000_000_000,
        stat: CpuStat {
            total: 6380,
            user: 1000,
            nice: 1100,
            system: 1200,
            idle: 1300,
            iowait: 1400,
            irq: 50,
            softirq: 10,
            steal: 20,
            guest: 200,
            guestnice: 100,
        },
    };

    let measurement2 = CpuMeasurement {
        precise_time_ns: 90_000_000_000,
        stat: CpuStat {
            total: 6440,
            user: 1006,
            nice: 1106,
            system: 1206,
            idle: 1306,
            iowait: 1406,
            irq: 56,
            softirq: 16,
            steal: 26,
            guest: 206,
            guestnice: 106,
        },
    };

    let expected = CpuStat {
        total: 120,
        user: 12,
        nice: 12,
        system: 12,
        idle: 12,
        iowait: 12,
        irq: 12,
        softirq: 12,
        steal: 12,
        guest: 12,
        guestnice: 12,
    };

    let stat = measurement1.calculate_per_minute(&measurement2).unwrap();

    assert_eq!(stat, expected);
}

#[test]
fn proc_test_calculate_per_minute_values_lower() {
    let measurement1 = CpuMeasurement {
        precise_time_ns: 60_000_000_000,
        stat: CpuStat {
            total: 6380,
            user: 1000,
            nice: 1100,
            system: 1200,
            idle: 1300,
            iowait: 1400,
            irq: 50,
            softirq: 10,
            steal: 20,
            guest: 200,
            guestnice: 100,
        },
    };

    let measurement2 = CpuMeasurement {
        precise_time_ns: 90_000_000_000,
        stat: CpuStat {
            total: 1040,
            user: 106,
            nice: 116,
            system: 126,
            idle: 136,
            iowait: 146,
            irq: 56,
            softirq: 16,
            steal: 26,
            guest: 206,
            guestnice: 106,
        },
    };

    match measurement1.calculate_per_minute(&measurement2) {
        Err(ProbeError::UnexpectedContent(_)) => (),
        r => panic!("Unexpected result: {:?}", r),
    }
}

#[test]
fn cpu_test_calculate_per_minute_wrong_times() {
    let measurement1 = CpuMeasurement {
        precise_time_ns: 90000000,
        stat: CpuStat {
            total: 0,
            user: 0,
            nice: 0,
            system: 0,
            idle: 0,
            iowait: 0,
            irq: 0,
            softirq: 0,
            steal: 0,
            guest: 0,
            guestnice: 0,
        },
    };

    let measurement2 = CpuMeasurement {
        precise_time_ns: 60000000,
        stat: CpuStat {
            total: 0,
            user: 0,
            nice: 0,
            system: 0,
            idle: 0,
            iowait: 0,
            irq: 0,
            softirq: 0,
            steal: 0,
            guest: 0,
            guestnice: 0,
        },
    };

    match measurement1.calculate_per_minute(&measurement2) {
        Err(ProbeError::InvalidInput(_)) => (),
        r => panic!("Unexpected result: {:?}", r),
    }
}

#[test]
fn cpu_test_calculate_per_minute_values_lower() {
    let measurement1 = CpuMeasurement {
        precise_time_ns: 60000000,
        stat: CpuStat {
            total: 0,
            user: 1000,
            nice: 1100,
            system: 1200,
            idle: 1300,
            iowait: 1400,
            irq: 0,
            softirq: 0,
            steal: 0,
            guest: 0,
            guestnice: 0,
        },
    };

    let measurement2 = CpuMeasurement {
        precise_time_ns: 90000000,
        stat: CpuStat {
            total: 0,
            user: 106,
            nice: 116,
            system: 126,
            idle: 136,
            iowait: 146,
            irq: 0,
            softirq: 0,
            steal: 0,
            guest: 0,
            guestnice: 0,
        },
    };

    match measurement1.calculate_per_minute(&measurement2) {
        Err(ProbeError::UnexpectedContent(_)) => (),
        r => panic!("Unexpected result: {:?}", r),
    }
}

#[test]
fn equal_times_are_invalid_even_when_counters_rise() {
    let measurement1 = CpuMeasurement {
        precise_time_ns: 60_000_000_000,
        stat: CpuStat {
            total: 6380,
            user: 1000,
            nice: 1100,
            system: 1200,
            idle: 1300,
            iowait: 1400,
            irq: 50,
            softirq: 10,
            steal: 20,
            guest: 200,
            guestnice: 100,
        },
    };

    let measurement2 = CpuMeasurement {
        precise_time_ns: 60_000_000_000,
        stat: CpuStat {
            total: 6440,
            user: 1006,
            nice: 1106,
            system: 1206,
            idle: 1306,
            iowait: 1406,
            irq: 56,
            softirq: 16,
            steal: 26,
            guest: 206,
            guestnice: 106,
        },
    };

    match measurement1.calculate_per_minute(&measurement2) {
        Err(ProbeError::InvalidInput(_)) => (),
        r => panic!("Unexpected result: {:?}", r),
    }
}
