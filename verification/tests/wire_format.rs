use roulette_plot::decimal::{push_decimal, ASCII_ZERO};
use roulette_plot::hpgl::Command;

fn text_of(n: u32) -> Vec<u8> {
    let mut out = Vec::new();
    push_decimal(&mut out, n);
    out
}

#[test]
fn decimal_text_of_small_numbers() {
    assert_eq!(ASCII_ZERO, b'0');
    assert_eq!(text_of(0), b"0".to_vec());
    assert_eq!(text_of(7), b"7".to_vec());
    assert_eq!(text_of(9), b"9".to_vec());
    assert_eq!(text_of(10), b"10".to_vec());
    assert_eq!(text_of(25), b"25".to_vec());
    assert_eq!(text_of(100), b"100".to_vec());
    assert_eq!(text_of(3212), b"3212".to_vec());
}

#[test]
fn decimal_text_of_large_numbers() {
    assert_eq!(text_of(1_000_000_000), b"1000000000".to_vec());
    assert_eq!(text_of(2_147_483_672), b"2147483672".to_vec());
    assert_eq!(text_of(u32::MAX), b"4294967295".to_vec());
}

#[test]
fn decimal_text_matches_std_formatting() {
    let mut n: u32 = 0;
    while n < 20_000 {
        assert_eq!(text_of(n), format!("{}", n).into_bytes());
        n += 1;
    }
    let mut m: u32 = 1;
    while m < 400_000_000 {
        assert_eq!(text_of(m), format!("{}", m).into_bytes());
        assert_eq!(text_of(m - 1), format!("{}", m - 1).into_bytes());
        m *= 10;
    }
}

#[test]
fn decimal_text_reads_back() {
    for n in [0u32, 1, 9, 10, 99, 100, 3235, 65_535, u32::MAX] {
        let text = String::from_utf8(text_of(n)).unwrap();
        assert_eq!(text.parse::<u32>().unwrap(), n);
    }
}

#[test]
fn push_decimal_appends() {
    let mut out = b"PU".to_vec();
    push_decimal(&mut out, 12);
    out.push(b',');
    push_decimal(&mut out, 0);
    assert_eq!(out, b"PU12,0".to_vec());
}

#[test]
fn wake_sequence_bytes() {
    assert_eq!(Command::Wake.encode(), b";:H A L0 ECN U ".to_vec());
    assert_eq!(Command::Wake.encode().len(), 15);
}

#[test]
fn raise_pen_bytes() {
    assert_eq!(Command::RaisePen.encode(), b"PU;".to_vec());
}

#[test]
fn shutdown_bytes() {
    assert_eq!(Command::Shutdown.encode(), b"PU0,0;!PG;".to_vec());
}

#[test]
fn pen_up_move_bytes() {
    assert_eq!(Command::PenUpMove { x: 25, y: 25 }.encode(), b"PU25,25;".to_vec());
    assert_eq!(Command::PenUpMove { x: 0, y: 0 }.encode(), b"PU0,0;".to_vec());
    assert_eq!(Command::PenUpMove { x: 3212, y: 7 }.encode(), b"PU3212,7;".to_vec());
}

#[test]
fn pen_down_draw_bytes() {
    assert_eq!(Command::PenDownDraw { x: 0, y: 3235 }.encode(), b"PD0,3235;".to_vec());
    assert_eq!(Command::PenDownDraw { x: 125, y: 225 }.encode(), b"PD125,225;".to_vec());
    assert_eq!(
        Command::PenDownDraw { x: u32::MAX, y: 10 }.encode(),
        b"PD4294967295,10;".to_vec()
    );
}

#[test]
fn motion_matches_formatted_text() {
    for (x, y) in [(0u32, 0u32), (1, 2), (25, 3235), (3212, 25), (99, 100), (1000, 999)] {
        assert_eq!(Command::PenUpMove { x, y }.encode(), format!("PU{},{};", x, y).into_bytes());
        assert_eq!(Command::PenDownDraw { x, y }.encode(), format!("PD{},{};", x, y).into_bytes());
    }
}

#[test]
fn only_a_draw_leaves_the_pen_down() {
    assert!(Command::PenDownDraw { x: 1, y: 1 }.marks());
    assert!(!Command::PenUpMove { x: 1, y: 1 }.marks());
    assert!(!Command::Wake.marks());
    assert!(!Command::RaisePen.marks());
    assert!(!Command::Shutdown.marks());
}
