use probes::disk_usage::{
    parse_df_inodes_output, parse_df_output, parse_df_usage_output, parse_percentage_segment,
    DiskInodeUsage, DiskUsage,
};
use probes::ProbeError;

const DF: &str = "Filesystem           1K-blocks      Used Available Use% Mounted on
/dev/mapper/lucid64-root
                      81234688   2344444  74763732   4% /
none                    183176       180    182996   1% /dev
/dev/sda1               233191     17217    203533   8% /boot
";
const DF_I: &str = "Filesystem      Inodes  IUsed   IFree IUse% Mounted on
overlay        2097152 122591 1974561    6% /
tmpfs           254863     16  254847    1% /dev
tmpfs           254863     15  254848    1% /sys/fs/cgroup
";
const DF_INCOMPLETE: &str = "Filesystem           1K-blocks      Used Available Use% Mounted on
                      81234688   2344444  74763732   4% /
";
const DF_GARBAGE: &str = "Filesystem           1K-blocks      Used Available Use% Mounted on
this is garbage
";
const DF_I_DASH_PERCENTAGE: &str = "Filesystem      Inodes  IUsed   IFree IUse% Mounted on
overlay        2097152 122591 1974561    6% /
shm                  0      0       0     - /dev/shm
";

#[test]
fn test_parse_df_output() {
    let expected = vec![
        vec![
            "/dev/mapper/lucid64-root",
            "81234688",
            "2344444",
            "74763732",
            "4%",
            "/",
        ],
        vec!["none", "183176", "180", "182996", "1%", "/dev"],
        vec!["/dev/sda1", "233191", "17217", "203533", "8%", "/boot"],
    ];

    let disks = parse_df_output(DF).unwrap();

    assert_eq!(expected, disks);
}

#[test]
fn test_parse_df_i_output() {
    let expected = vec![
        vec!["overlay", "2097152", "122591", "1974561", "6%", "/"],
        vec!["tmpfs", "254863", "16", "254847", "1%", "/dev"],
        vec!["tmpfs", "254863", "15", "254848", "1%", "/sys/fs/cgroup"],
    ];

    let disks = parse_df_output(DF_I).unwrap();

    assert_eq!(expected, disks);
}

#[test]
fn test_parse_df_output_incomplete() {
    match parse_df_output(DF_INCOMPLETE) {
        Err(ProbeError::UnexpectedContent(_)) => (),
        r => panic!("Unexpected result: {:?}", r),
    }
}

#[test]
fn test_parse_df_output_garbage() {
    match parse_df_output(DF_GARBAGE) {
        Err(ProbeError::UnexpectedContent(_)) => (),
        r => panic!("Unexpected result: {:?}", r),
    }
}

#[test]
fn test_parse_df_i_output_dash_percentage() {
    let disks = parse_df_inodes_output(parse_df_output(DF_I_DASH_PERCENTAGE).unwrap()).unwrap();

    // Does not include the mountpoint with a dash (-) as a percentage
    assert_eq!(
        disks,
        vec![DiskInodeUsage {
            filesystem: Some("overlay".to_string()),
            inodes: 2097152,
            iused: 122591,
            ifree: 1974561,
            iused_percentage: 6,
            mountpoint: "/".to_string(),
        }]
    );
}

#[test]
fn df_usage_rows_become_disk_usage() {
    let disks = parse_df_usage_output(parse_df_output(DF).unwrap()).unwrap();
    assert_eq!(3, disks.len());
    assert_eq!(
        disks[0],
        DiskUsage {
            filesystem: Some("/dev/mapper/lucid64-root".to_string()),
            one_k_blocks: 81234688,
            one_k_blocks_used: 2344444,
            one_k_blocks_free: 74763732,
            used_percentage: 4,
            mountpoint: "/".to_string(),
        }
    );
    // A file system named `none` has no name.
    assert_eq!(disks[1].filesystem, None);
    assert_eq!(disks[1].mountpoint, "/dev");
    assert_eq!(disks[2].used_percentage, 8);
}

#[test]
fn df_usage_rejects_short_row() {
    let rows = vec![vec!["none".to_string(), "1".to_string()]];
    match parse_df_usage_output(rows) {
        Err(ProbeError::UnexpectedContent(_)) => (),
        r => panic!("Unexpected result: {:?}", r),
    }
}

#[test]
fn percentage_segment_drops_last_character() {
    assert_eq!(42, parse_percentage_segment("42%").unwrap());
    assert!(parse_percentage_segment("").is_err());
    assert!(parse_percentage_segment("%").is_err());
    assert!(parse_percentage_segment("4294967296%").is_err());
}

#[test]
fn empty_df_output_has_no_rows() {
    assert!(parse_df_output("").unwrap().is_empty());
    assert!(parse_df_output("Filesystem 1K-blocks Used Available Use% Mounted on\n").unwrap().is_empty());
}
