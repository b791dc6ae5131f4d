use bevy_fighter::utils::countdown;

#[test]
fn countdown_from_0() {
    assert_eq!(countdown(0), 0);
}

#[test]
fn countdown_from_10() {
    assert_eq!(countdown(10), 9);
}

#[test]
fn countdown_stops_at_zero() {
    assert_eq!(countdown(1), 0);
    assert_eq!(countdown(255), 254);
    let mut left = 3;
    for _ in 0..5 {
        left = countdown(left);
    }
    assert_eq!(left, 0);
}

#[test]
fn motion_groups() {
    let forward: Vec<u8> = (0..=10).filter(|m| bevy_fighter::utils::x_positive(*m)).collect();
    assert_eq!(forward, vec![3, 6, 9]);
    let up: Vec<u8> = (0..=10).filter(|m| bevy_fighter::utils::y_positive(*m)).collect();
    assert_eq!(up, vec![7, 8, 9]);
    let back: Vec<u8> = (0..=10).filter(|m| bevy_fighter::utils::x_negative(*m)).collect();
    assert_eq!(back, vec![1, 4, 7]);
    let down: Vec<u8> = (0..=10).filter(|m| bevy_fighter::utils::y_negative(*m)).collect();
    assert_eq!(down, vec![1, 2, 3]);
}
