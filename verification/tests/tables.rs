use gf::gen_table::REDUCTION_POLYNOMIAL;
use gf::algebra::LOG_OF_ZERO;
use gf::tables::{alog, log, ALOGTABLE, LOGTABLE};
use gf::{gen_tables_u8, tables_are_consistent};

#[test]
fn check_logtables() {
    let tables: ([usize; 256], [u8; 1025]) = gen_tables_u8(0x11D);

    assert!(tables.0 == LOGTABLE);
    assert!(tables.1 == ALOGTABLE);
}

#[test]
fn reference_values() {
    let (log, alog) = gen_tables_u8(0x11D);
    assert_eq!(log[1], 0);
    assert_eq!(log[2], 1);
    assert_eq!(log[3], 25);
    assert_eq!(alog[0], 1);
    assert_eq!(alog[1], 2);
    assert_eq!(alog[255], 1);
    assert_eq!(log[0], 512);
    assert_eq!(alog[8], 29);
    assert_eq!(alog[254], 142);
    assert_eq!(alog[509], 142);
    assert_eq!(alog[510], 0);
    assert_eq!(alog[1024], 0);
}

#[test]
fn generation_is_deterministic() {
    let first = gen_tables_u8(REDUCTION_POLYNOMIAL);
    let second = gen_tables_u8(REDUCTION_POLYNOMIAL);
    assert!(first.0 == second.0);
    assert!(first.1 == second.1);
}

#[test]
fn antilog_of_log_is_identity() {
    let (log, alog) = gen_tables_u8(0x11D);
    for v in 1..256usize {
        assert!(log[v] < 255);
        assert_eq!(alog[log[v]] as usize, v);
    }
}

#[test]
fn log_of_antilog_is_identity() {
    let (log, alog) = gen_tables_u8(0x11D);
    for i in 0..255usize {
        assert_ne!(alog[i], 0);
        assert_eq!(log[alog[i] as usize], i);
    }
}

#[test]
fn antilog_is_periodic_and_zero_padded() {
    let (_, alog) = gen_tables_u8(0x11D);
    for i in 255..510usize {
        assert_eq!(alog[i], alog[i - 255]);
    }
    for i in 510..1025usize {
        assert_eq!(alog[i], 0);
    }
}

#[test]
fn table_readers() {
    assert_eq!(log(0), LOG_OF_ZERO);
    assert_eq!(log(1), 0);
    assert_eq!(log(2), 1);
    assert_eq!(log(3), 25);
    assert_eq!(log(255), 175);
    assert_eq!(alog(0), 1);
    assert_eq!(alog(25), 3);
    assert_eq!(alog(175), 255);
    assert_eq!(alog(255), 1);
    assert_eq!(alog(512), 0);
    assert_eq!(alog(1024), 0);
}

#[test]
fn standard_tables_are_consistent() {
    assert!(tables_are_consistent(&LOGTABLE, &ALOGTABLE));
    let (log, alog) = gen_tables_u8(0x11D);
    assert!(tables_are_consistent(&log, &alog));
}

#[test]
fn tables_of_a_polynomial_that_is_not_primitive_are_rejected() {
    // x^8 + x^4 + x^3 + x + 1 is irreducible, but 2 does not generate its field.
    let (log, alog) = gen_tables_u8(0x11B);
    assert!(!tables_are_consistent(&log, &alog));
    let (log, alog) = gen_tables_u8(0x100);
    assert!(!tables_are_consistent(&log, &alog));
    assert_eq!(alog[8], 0);
    assert_eq!(log[0], 254);
}

#[test]
fn damaged_tables_are_rejected() {
    let mut log = LOGTABLE;
    log[0] = 511;
    assert!(!tables_are_consistent(&log, &ALOGTABLE));
    let mut log = LOGTABLE;
    log[7] = 255;
    assert!(!tables_are_consistent(&log, &ALOGTABLE));
    let mut log = LOGTABLE;
    log.swap(7, 9);
    assert!(!tables_are_consistent(&log, &ALOGTABLE));
    let mut alog = ALOGTABLE;
    alog[300] ^= 1;
    assert!(!tables_are_consistent(&LOGTABLE, &alog));
    let mut alog = ALOGTABLE;
    alog[510] = 1;
    assert!(!tables_are_consistent(&LOGTABLE, &alog));
    let mut alog = ALOGTABLE;
    alog[1024] = 9;
    assert!(!tables_are_consistent(&LOGTABLE, &alog));
}

#[test]
fn walk_under_another_polynomial() {
    let (log, alog) = gen_tables_u8(0x11B);
    assert_eq!(alog[7], 128);
    assert_eq!(alog[8], 0x1b);
    assert_eq!(log[0x1b], 8 + 51 * 4);
}
