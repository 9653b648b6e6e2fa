use cratouille::priority::Priority;
use ratatui::style::Color;

#[test]
fn next_walks_the_cycle() {
    assert_eq!(Priority::Low.next(), Priority::Medium);
    assert_eq!(Priority::Medium.next(), Priority::High);
    assert_eq!(Priority::High.next(), Priority::Low);
}

#[test]
fn three_steps_lead_back() {
    for level in [Priority::Low, Priority::Medium, Priority::High] {
        assert_eq!(level.next().next().next(), level);
        assert_ne!(level.next(), level);
        assert_ne!(level.next().next(), level);
    }
}

#[test]
fn labels_are_fixed() {
    assert_eq!(Priority::Low.as_str(), "Low");
    assert_eq!(Priority::Medium.as_str(), "Medium");
    assert_eq!(Priority::High.as_str(), "High");
}

#[test]
fn colors_are_fixed() {
    assert_eq!(Priority::Low.get_color(), Color::Rgb(9, 245, 33));
    assert_eq!(Priority::Medium.get_color(), Color::Rgb(245, 151, 9));
    assert_eq!(Priority::High.get_color(), Color::Rgb(245, 9, 9));
}

#[test]
fn colors_differ_by_level() {
    assert_ne!(Priority::Low.get_color(), Priority::Medium.get_color());
    assert_ne!(Priority::Medium.get_color(), Priority::High.get_color());
    assert_ne!(Priority::Low.get_color(), Priority::High.get_color());
}
