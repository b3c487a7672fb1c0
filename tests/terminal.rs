use k_board::termio::{
    enter_raw, raw_mode_attributes, termios, ECHO, ICANON, ICRNL, IGNCR, INLCR, VMIN, VTIME,
};

fn sample() -> termios {
    let mut cc = [0u8; 32];
    for (i, b) in cc.iter_mut().enumerate() {
        *b = (i as u8) * 3 + 1;
    }
    termios {
        c_iflag: 0xFFFF_FFFF,
        c_oflag: 0x0000_0005,
        c_cflag: 0x0000_00BF,
        c_lflag: 0x0000_8A3B,
        c_line: 7,
        c_cc: cc,
        c_ispeed: 38400,
        c_ospeed: 9600,
    }
}

#[test]
fn raw_mode_clears_canonical_echo_and_flow_control() {
    let t = sample();
    let r = raw_mode_attributes(&t);
    assert_eq!(r.c_lflag, 0x0000_8A31);
    assert_eq!(r.c_lflag & (ICANON | ECHO), 0);
    assert_eq!(r.c_iflag, 0xFFFF_E23F);
    assert_eq!(r.c_oflag, t.c_oflag);
    assert_eq!(r.c_cflag, t.c_cflag);
    assert_eq!(r.c_line, t.c_line);
    assert_eq!(r.c_ispeed, t.c_ispeed);
    assert_eq!(r.c_ospeed, t.c_ospeed);
    assert_eq!(r.c_cc[VMIN], 0);
    assert_eq!(r.c_cc[VTIME], 1);
    for i in 0..32 {
        if i != VMIN && i != VTIME {
            assert_eq!(r.c_cc[i], t.c_cc[i]);
        }
    }
}

#[test]
fn snapshot_is_the_original() {
    let t = sample();
    let e = enter_raw(&t);
    assert_eq!(e.snapshot.c_iflag, t.c_iflag);
    assert_eq!(e.snapshot.c_lflag, t.c_lflag);
    assert_eq!(e.snapshot.c_cc, t.c_cc);
    assert_eq!(e.raw.c_lflag, 0x0000_8A31);
    assert_ne!(e.raw.c_cc, t.c_cc);
}

#[test]
fn raw_mode_stops_line_ending_translation() {
    let mut t = sample();
    t.c_iflag = ICRNL;
    assert_eq!(raw_mode_attributes(&t).c_iflag, 0);
    t.c_iflag = INLCR | IGNCR | 0x0000_0001;
    assert_eq!(raw_mode_attributes(&t).c_iflag, 0x0000_0001);
}

#[test]
fn entering_again_from_the_restored_record_repeats_the_session() {
    let t = sample();
    let first = enter_raw(&t);
    let second = enter_raw(&first.snapshot);
    assert_eq!(second.snapshot.c_iflag, t.c_iflag);
    assert_eq!(second.snapshot.c_lflag, t.c_lflag);
    assert_eq!(second.snapshot.c_cc, t.c_cc);
    assert_eq!(second.raw.c_iflag, first.raw.c_iflag);
    assert_eq!(second.raw.c_lflag, first.raw.c_lflag);
    assert_eq!(second.raw.c_cc, first.raw.c_cc);
}
