use fishtank::mobile::Mobile;

const ICONS: [&str; 16] = [
    "🦀", "🐟", "🐠", "🐡", "🐙", "🐬", "🦑", "🪼", "🦈", "🦞", "🦐", "🐌", "🐳", "🐋", "🦈",
    ".",
];

fn swimmer(x: u16, y: u16, dx: i16, dy: i16, speed: u8, last_wait: u8) -> Mobile {
    Mobile {
        x,
        y,
        delta_x: dx,
        delta_y: dy,
        icon: String::from("."),
        speed,
        last_wait,
    }
}

#[test]
fn new_mobile_starts_on_the_grid() {
    for _ in 0..50 {
        let m = Mobile::new(24, 80);
        assert!(m.x < 80);
        assert!(m.y < 24);
        assert!(1 <= m.speed && m.speed < 20);
        assert_eq!(m.last_wait, 0);
        assert!(m.delta_x == 1 || m.delta_x == -1);
        assert!(m.delta_y == 1 || m.delta_y == -1);
        assert!(ICONS.iter().any(|s| *s == m.icon));
    }
}

#[test]
fn update_waits_until_speed_reached() {
    let mut m = swimmer(5, 5, 1, 1, 3, 0);
    m.update(24, 80);
    assert_eq!(m.last_wait, 1);
    assert_eq!(m.x, 5);
    assert_eq!(m.y, 5);
    assert_eq!(m.delta_x, 1);
    assert_eq!(m.delta_y, 1);
}

#[test]
fn update_moves_one_cell_at_most() {
    for _ in 0..50 {
        let mut m = swimmer(5, 5, 1, 1, 3, 3);
        m.update(24, 80);
        assert_eq!(m.last_wait, 0);
        assert!(m.x == 5 || m.x == 6);
        assert!(m.y == 5 || m.y == 6);
    }
}

#[test]
fn update_turns_around_at_left_edge() {
    for _ in 0..20 {
        let mut m = swimmer(0, 5, -1, 1, 1, 1);
        m.update(24, 80);
        assert_eq!(m.delta_x, 1);
        assert!(m.x == 0 || m.x == 1);
    }
}

#[test]
fn update_turns_around_past_right_edge() {
    for _ in 0..20 {
        let mut m = swimmer(80, 5, 1, 1, 1, 1);
        m.update(24, 80);
        assert_eq!(m.delta_x, -1);
        assert!(m.x == 80 || m.x == 79);
    }
}

#[test]
fn update_turns_around_at_top_and_bottom() {
    for _ in 0..20 {
        let mut m = swimmer(5, 0, 1, -1, 1, 1);
        m.update(24, 80);
        assert_eq!(m.delta_y, 1);

        let mut m = swimmer(5, 24, 1, 1, 1, 1);
        m.update(24, 80);
        assert_eq!(m.delta_y, -1);
    }
}
