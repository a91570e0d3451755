use probes::cpu::cgroup::{CgroupCpuMeasurement, CgroupCpuStat};
use probes::cpu::cgroup_v1::{parse_v1_sys_stat, read_and_parse_v1_sys_stat};
use probes::cpu::cgroup_v2::read_and_parse_v2_sys_stat;
use probes::{CpuCount, ProbeError};

const CPUACCT_STAT_1: &str = "user 14934\nsystem 98\n";
const CPUACCT_USAGE_1: &str = "152657213021\n";
const CPUACCT_STAT_INCOMPLETE: &str = "user 14934\n";
const CPUACCT_STAT_GARBAGE: &str = "user nonsense\nsystem 98\n";
const CFS_PERIOD: &str = "100000\n";
const CFS_QUOTA_ONE_CPU: &str = "100000\n";
const CFS_QUOTA_TWO_CPU: &str = "200000\n";
const CFS_QUOTA_HALF_CPU: &str = "50000\n";
const CFS_QUOTA_MINUS_ONE: &str = "-1\n";

const CPU_STAT_1: &str = "usage_usec 171462\nuser_usec 53792\nsystem_usec 117670\nnr_periods 0\nnr_throttled 0\nthrottled_usec 0\n";
const CPU_STAT_INCOMPLETE: &str = "usage_usec 171462\nuser_usec 53792\n";
const CPU_STAT_GARBAGE: &str = "usage_usec garbage\nuser_usec 53792\nsystem_usec 117670\n";
const CPU_MAX_DEFAULT: &str = "max 100000\n";
const CPU_MAX_2_CPUS: &str = "200000 100000\n";
const CPU_MAX_HALF: &str = "50000 100000\n";
const CPU_MAX_GARBAGE: &str = "garbage 100000\n";

fn zero_stat() -> CgroupCpuStat {
    CgroupCpuStat {
        total_usage: 0,
        user: 0,
        system: 0,
    }
}

#[test]
fn cgroup_test_calculate_per_minute_wrong_times() {
    let measurement1 = CgroupCpuMeasurement {
        precise_time_ns: 90_000_000_000,
        stat: zero_stat(),
    };
    let measurement2 = CgroupCpuMeasurement {
        precise_time_ns: 60_000_000_000,
        stat: zero_stat(),
    };
    match measurement1.calculate_per_minute(&measurement2) {
        Err(ProbeError::InvalidInput(_)) => (),
        r => panic!("Unexpected result: {:?}", r),
    }
}

#[test]
fn test_cgroup_calculate_per_minute_full_minute() {
    let measurement1 = CgroupCpuMeasurement {
        precise_time_ns: 60_000_000_000,
        stat: CgroupCpuStat {
            total_usage: 6380,
            user: 1000,
            system: 1200,
        },
    };
    let measurement2 = CgroupCpuMeasurement {
        precise_time_ns: 120_000_000_000,
        stat: CgroupCpuStat {
            total_usage: 6440,
            user: 1006,
            system: 1206,
        },
    };
    let expected = CgroupCpuStat {
        total_usage: 60,
        user: 6,
        system: 6,
    };
    let stat = measurement1.calculate_per_minute(&measurement2).unwrap();
    assert_eq!(stat, expected);
}

#[test]
fn cgroup_test_calculate_per_minute_partial_minute() {
    let measurement1 = CgroupCpuMeasurement {
        precise_time_ns: 60_000_000_000,
        stat: CgroupCpuStat {
            total_usage: 1_000_000_000,
            user: 10000_000_000,
            system: 12000_000_000,
        },
    };
    let measurement2 = CgroupCpuMeasurement {
        precise_time_ns: 90_000_000_000,
        stat: CgroupCpuStat {
            total_usage: 1_500_000_000,
            user: 10060_000_000,
            system: 12060_000_000,
        },
    };
    let expected = CgroupCpuStat {
        total_usage: 1_000_000_000,
        user: 120_000_000,
        system: 120_000_000,
    };
    let stat = measurement1.calculate_per_minute(&measurement2).unwrap();
    assert_eq!(stat, expected);
}

#[test]
fn cgroup_test_calculate_per_minute_values_lower() {
    let measurement1 = CgroupCpuMeasurement {
        precise_time_ns: 60_000_000_000,
        stat: CgroupCpuStat {
            total_usage: 63800_000_000,
            user: 10000_000_000,
            system: 12000_000_000,
        },
    };
    let measurement2 = CgroupCpuMeasurement {
        precise_time_ns: 90_000_000_000,
        stat: CgroupCpuStat {
            total_usage: 10400_000_000,
            user: 1060_000_000,
            system: 1260_000_000,
        },
    };
    match measurement1.calculate_per_minute(&measurement2) {
        Err(ProbeError::UnexpectedContent(_)) => (),
        r => panic!("Unexpected result: {:?}", r),
    }
}

#[test]
fn test_read_v1_sys_measurement_no_quota() {
    let measurement =
        read_and_parse_v1_sys_stat(CPUACCT_STAT_1, CPUACCT_USAGE_1, None, None).unwrap();
    let cpu = measurement.stat;
    assert_eq!(cpu.total_usage, 152657213021);
    assert_eq!(cpu.user, 149340000000);
    assert_eq!(cpu.system, 980000000);
}

#[test]
fn test_read_v1_sys_measurement_one_cpu() {
    let measurement = read_and_parse_v1_sys_stat(
        CPUACCT_STAT_1,
        CPUACCT_USAGE_1,
        Some(CFS_PERIOD),
        Some(CFS_QUOTA_ONE_CPU),
    )
    .unwrap();
    let cpu = measurement.stat;
    assert_eq!(cpu.total_usage, 152657213021);
    assert_eq!(cpu.user, 149340000000);
    assert_eq!(cpu.system, 980000000);
}

#[test]
fn test_read_v1_sys_measurement_two_cpu() {
    let measurement = read_and_parse_v1_sys_stat(
        CPUACCT_STAT_1,
        CPUACCT_USAGE_1,
        Some(CFS_PERIOD),
        Some(CFS_QUOTA_TWO_CPU),
    )
    .unwrap();
    let cpu = measurement.stat;
    assert_eq!(cpu.total_usage, 76328606511);
    assert_eq!(cpu.user, 149340000000);
    assert_eq!(cpu.system, 980000000);
}

#[test]
fn test_read_v1_sys_measurement_half_cpu() {
    let measurement = read_and_parse_v1_sys_stat(
        CPUACCT_STAT_1,
        CPUACCT_USAGE_1,
        Some(CFS_PERIOD),
        Some(CFS_QUOTA_HALF_CPU),
    )
    .unwrap();
    let cpu = measurement.stat;
    assert_eq!(cpu.total_usage, 305314426042);
    assert_eq!(cpu.user, 149340000000);
    assert_eq!(cpu.system, 980000000);
}

#[test]
fn test_read_v1_sys_measurement_minus_one() {
    let measurement = read_and_parse_v1_sys_stat(
        CPUACCT_STAT_1,
        CPUACCT_USAGE_1,
        Some(CFS_PERIOD),
        Some(CFS_QUOTA_MINUS_ONE),
    )
    .unwrap();
    let cpu = measurement.stat;
    // Does not divide by the number of CPUs
    assert_eq!(cpu.total_usage, 152657213021);
    assert_eq!(cpu.user, 149340000000);
    assert_eq!(cpu.system, 980000000);
}

#[test]
fn test_read_and_parse_v1_sys_stat_incomplete() {
    match read_and_parse_v1_sys_stat(CPUACCT_STAT_INCOMPLETE, CPUACCT_USAGE_1, None, None) {
        Err(ProbeError::UnexpectedContent(_)) => (),
        r => panic!("Unexpected result: {:?}", r),
    }
}

#[test]
fn test_read_and_parse_v1_sys_stat_garbage() {
    match read_and_parse_v1_sys_stat(CPUACCT_STAT_GARBAGE, CPUACCT_USAGE_1, None, None) {
        Err(ProbeError::UnexpectedContent(_)) => (),
        r => panic!("Unexpected result: {:?}", r),
    }
}

#[test]
fn v1_quota_without_period_file_is_not_applied() {
    let measurement =
        read_and_parse_v1_sys_stat(CPUACCT_STAT_1, CPUACCT_USAGE_1, None, Some(CFS_QUOTA_TWO_CPU))
            .unwrap();
    assert_eq!(measurement.stat.total_usage, 152657213021);
}

#[test]
fn v1_garbage_quota_is_unexpected() {
    match read_and_parse_v1_sys_stat(CPUACCT_STAT_1, CPUACCT_USAGE_1, Some(CFS_PERIOD), Some("lots\n")) {
        Err(ProbeError::UnexpectedContent(_)) => (),
        r => panic!("Unexpected result: {:?}", r),
    }
}

#[test]
fn v1_measurement_keeps_given_time() {
    let measurement =
        parse_v1_sys_stat(CPUACCT_STAT_1, CPUACCT_USAGE_1, None, None, 375953965125920).unwrap();
    assert_eq!(measurement.precise_time_ns, 375953965125920);
}

#[test]
fn test_read_v2_sys_measurement_default_cpu_max() {
    let measurement = read_and_parse_v2_sys_stat(CPU_STAT_1, Some(CPU_MAX_DEFAULT), None).unwrap();
    let cpu = measurement.stat;
    assert_eq!(cpu.total_usage, 171462000);
    assert_eq!(cpu.user, 53792000);
    assert_eq!(cpu.system, 117670000);
}

#[test]
fn test_read_v2_sys_measurement_2_cpus() {
    let measurement = read_and_parse_v2_sys_stat(CPU_STAT_1, Some(CPU_MAX_2_CPUS), None).unwrap();
    let cpu = measurement.stat;
    assert_eq!(cpu.total_usage, 85731000);
    assert_eq!(cpu.user, 26896000);
    assert_eq!(cpu.system, 58835000);
}

#[test]
fn test_read_v2_sys_measurement_half_usage() {
    let measurement = read_and_parse_v2_sys_stat(CPU_STAT_1, Some(CPU_MAX_HALF), None).unwrap();
    let cpu = measurement.stat;
    assert_eq!(cpu.total_usage, 342924000);
    assert_eq!(cpu.user, 107584000);
    assert_eq!(cpu.system, 235340000);
}

#[test]
fn test_read_v2_sys_one_cpu_count() {
    let measurement =
        read_and_parse_v2_sys_stat(CPU_STAT_1, Some(CPU_MAX_GARBAGE), Some(CpuCount::new(1, 1)))
            .unwrap();
    let cpu = measurement.stat;
    assert_eq!(cpu.total_usage, 171462000);
    assert_eq!(cpu.user, 53792000);
    assert_eq!(cpu.system, 117670000);
}

#[test]
fn test_read_v2_sys_measurement_two_cpu_count() {
    let measurement =
        read_and_parse_v2_sys_stat(CPU_STAT_1, Some(CPU_MAX_GARBAGE), Some(CpuCount::new(2, 1)))
            .unwrap();
    let cpu = measurement.stat;
    assert_eq!(cpu.total_usage, 85731000);
    assert_eq!(cpu.user, 26896000);
    assert_eq!(cpu.system, 58835000);
}

#[test]
fn test_read_v2_sys_measurement_half_cpu_count() {
    let measurement =
        read_and_parse_v2_sys_stat(CPU_STAT_1, Some(CPU_MAX_GARBAGE), Some(CpuCount::new(1, 2)))
            .unwrap();
    let cpu = measurement.stat;
    assert_eq!(cpu.total_usage, 342924000);
    assert_eq!(cpu.user, 107584000);
    assert_eq!(cpu.system, 235340000);
}

#[test]
fn test_read_and_parse_v2_sys_stat_incomplete() {
    match read_and_parse_v2_sys_stat(CPU_STAT_INCOMPLETE, Some(CPU_MAX_DEFAULT), None) {
        Err(ProbeError::UnexpectedContent(_)) => (),
        r => panic!("Unexpected result: {:?}", r),
    }
}

#[test]
fn test_read_and_parse_v2_sys_stat_garbage() {
    // The cpu.max file of this case does not exist.
    match read_and_parse_v2_sys_stat(CPU_STAT_GARBAGE, None, None) {
        Err(ProbeError::UnexpectedContent(_)) => (),
        r => panic!("Unexpected result: {:?}", r),
    }
}

#[test]
fn test_read_and_parse_v2_sys_max_garbage() {
    match read_and_parse_v2_sys_stat(CPU_STAT_1, Some(CPU_MAX_GARBAGE), None) {
        Err(ProbeError::UnexpectedContent(_)) => (),
        r => panic!("Unexpected result: {:?}", r),
    }
}

#[test]
fn by_cpu_count_rounds_to_nearest() {
    let stat = CgroupCpuStat {
        total_usage: 5,
        user: 4,
        system: 7,
    };
    // Divided by 2 cores: 2.5, 2 and 3.5, halves going up.
    let expected = CgroupCpuStat {
        total_usage: 3,
        user: 2,
        system: 4,
    };
    assert_eq!(expected, stat.by_cpu_count(Some(CpuCount::new(2, 1))));
    // Divided by 3 cores: 1.67, 1.33 and 2.33.
    let expected = CgroupCpuStat {
        total_usage: 2,
        user: 1,
        system: 2,
    };
    assert_eq!(expected, stat.by_cpu_count(Some(CpuCount::new(3, 1))));
}

#[test]
fn by_cpu_count_without_known_count_keeps_values() {
    let stat = CgroupCpuStat {
        total_usage: 5,
        user: 4,
        system: 7,
    };
    assert_eq!(stat, stat.by_cpu_count(None));
    assert_eq!(stat, stat.by_cpu_count(Some(CpuCount::new(0, 100000))));
    assert_eq!(stat, stat.by_cpu_count(Some(CpuCount::new(100000, 0))));
}

#[test]
fn by_cpu_count_holds_at_largest_value() {
    let stat = CgroupCpuStat {
        total_usage: u64::MAX,
        user: 0,
        system: 1,
    };
    let scaled = stat.by_cpu_count(Some(CpuCount::new(1, 4)));
    assert_eq!(u64::MAX, scaled.total_usage);
    assert_eq!(0, scaled.user);
    assert_eq!(4, scaled.system);
}
