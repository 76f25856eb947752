use minigolf::geom::Vec2i;
use minigolf::states::SwingState;
use minigolf::swing::CHAIN_LENGTH;
use minigolf::swing::SwingController;
use minigolf::swing::WINDUP_DISTANCE_H;
use minigolf::swing::power_of_distance_sq;

fn power_at(distance: i64) -> u8 {
    power_of_distance_sq((distance as i128) * (distance as i128))
}

#[test]
fn power_is_zero_at_rest() {
    assert_eq!(power_at(0), 0);
}

#[test]
fn power_rounds_to_the_nearest_link() {
    // One link covers 400 / 7 ~ 57.14 half-units of wind-up; the first
    // step begins at half a link.
    assert_eq!(power_at(28), 0);
    assert_eq!(power_at(29), 1);
    assert_eq!(power_at(100), 2);
    assert_eq!(power_at(150), 3);
    assert_eq!(power_at(200), 4);
}

#[test]
fn power_saturates_at_the_windup_distance() {
    assert_eq!(power_at(WINDUP_DISTANCE_H), CHAIN_LENGTH);
    assert_eq!(power_at(WINDUP_DISTANCE_H + 1), CHAIN_LENGTH);
    assert_eq!(power_at(10 * WINDUP_DISTANCE_H), CHAIN_LENGTH);
}

#[test]
fn power_is_monotone_in_distance() {
    let mut last: u8 = 0;
    for d in 0..=600i64 {
        let p = power_at(d);
        assert!(p >= last, "power fell from {} to {} at distance {}", last, p, d);
        assert!(p <= CHAIN_LENGTH);
        last = p;
    }
}

#[test]
fn windup_recomputes_power_and_direction() {
    let mut sc = SwingController::new();
    sc.start_swing(Vec2i { x: 100, y: 50 });
    assert_eq!(sc.state, SwingState::WindingUp);
    // Pointer dragged 150 half-units straight down from the anchor.
    sc.calculate_swing_power(Vec2i { x: 100, y: -100 });
    assert_eq!(sc.swing.power, 3);
    assert_eq!(sc.swing.dir, Vec2i { x: 0, y: 150 });
    // Dragging back towards the anchor lowers the power again: nothing
    // accumulates.
    sc.calculate_swing_power(Vec2i { x: 100, y: 40 });
    assert_eq!(sc.swing.power, 0);
}

#[test]
fn releasing_a_windup_returns_the_swing() {
    let mut sc = SwingController::new();
    sc.start_swing(Vec2i { x: 0, y: 0 });
    sc.calculate_swing_power(Vec2i { x: -200, y: 0 });
    let swing = sc.swing_release().expect("a powered swing launches");
    assert_eq!(swing.power, 4);
    assert_eq!(swing.dir, Vec2i { x: 200, y: 0 });
    assert_eq!(sc.state, SwingState::Idle);
    assert_eq!(sc.swing.power, 0);
}

#[test]
fn releasing_at_zero_power_is_a_cancelled_swing() {
    let mut sc = SwingController::new();
    sc.start_swing(Vec2i { x: 7, y: 7 });
    sc.calculate_swing_power(Vec2i { x: 7, y: 7 });
    assert!(sc.swing_release().is_none());
    assert_eq!(sc.state, SwingState::Idle);
}
