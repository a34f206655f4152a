use poker_planning::avatar::{AvatarColor, AvatarSymbol, Role};

#[test]
fn color_next_steps_through_the_catalog() {
    assert_eq!(AvatarColor::Red.next(), AvatarColor::Green);
    assert_eq!(AvatarColor::Cyan.next(), AvatarColor::Orange);
    assert_eq!(AvatarColor::Crimson.next(), AvatarColor::White);
}

#[test]
fn color_next_wraps_around() {
    assert_eq!(AvatarColor::White.next(), AvatarColor::Red);
}

#[test]
fn symbol_next_steps_through_the_catalog() {
    assert_eq!(AvatarSymbol::Human.next(), AvatarSymbol::Alien);
    assert_eq!(AvatarSymbol::Robot.next(), AvatarSymbol::Phantom);
    assert_eq!(AvatarSymbol::Music.next(), AvatarSymbol::Globe);
}

#[test]
fn symbol_next_wraps_around() {
    assert_eq!(AvatarSymbol::Globe.next(), AvatarSymbol::Human);
}

#[test]
fn twenty_steps_lead_back() {
    let mut color = AvatarColor::Teal;
    let mut symbol = AvatarSymbol::Sun;
    for _ in 0..20 {
        color = color.next();
        symbol = symbol.next();
    }
    assert_eq!(color, AvatarColor::Teal);
    assert_eq!(symbol, AvatarSymbol::Sun);
}

#[test]
fn positions_and_entries_agree() {
    for i in 0..20usize {
        assert_eq!(AvatarColor::at(i).position(), i);
        assert_eq!(AvatarSymbol::at(i).position(), i);
    }
}

#[test]
fn random_entries_come_from_the_catalog() {
    for _ in 0..200 {
        assert!(AvatarColor::random().position() < 20);
        assert!(AvatarSymbol::random().position() < 20);
    }
}

#[test]
fn random_colors_vary() {
    let first = AvatarColor::random();
    let mut varied = false;
    for _ in 0..500 {
        if AvatarColor::random() != first {
            varied = true;
        }
    }
    assert!(varied);
}

#[test]
fn only_the_scrum_master_administers() {
    assert!(Role::ScrumMaster.may_administer());
    assert!(!Role::Participant.may_administer());
    assert!(!Role::Observer.may_administer());
}
