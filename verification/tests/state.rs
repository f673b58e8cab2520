use desktop_backend::bom::{demo_bom, BomItem};
use desktop_backend::planning::{demo_materials, MaterialRow};
use desktop_backend::state::{AdvancedSummary, AppState, OverviewSummary, SettingsSummary};
use desktop_backend::tabs::{tab_strip, Message, TabKind};

fn fields_of(item: &BomItem) -> (&str, u32, &str, &str, u32, u32) {
    (
        item.name.as_str(),
        item.quantity,
        item.unit_cost.as_str(),
        item.total_cost.as_str(),
        item.lead_time_days,
        item.min_quantity,
    )
}

fn same(a: &AppState, b: &AppState) -> bool {
    a.overview.title == b.overview.title
        && a.overview.status == b.overview.status
        && a.overview.key_metrics == b.overview.key_metrics
        && a.bom.len() == b.bom.len()
        && a.bom.iter().zip(b.bom.iter()).all(|(x, y)| fields_of(x) == fields_of(y))
        && a.settings.configured == b.settings.configured
        && a.settings.description == b.settings.description
        && a.advanced.notes == b.advanced.notes
}

const TEXT: &str = "name,quantity,unit_cost,total_cost,lead_time_days,min_quantity\n\
Bolt,10,1.50,15.00,5,2\nShort,1\nNut,x,0.25,y,3,10\n";

#[test]
fn state_without_a_source_shows_the_fixed_bom() {
    let state = AppState::demo_with_bom_path(None);
    let fixed = demo_bom();
    assert_eq!(state.bom().len(), 3);
    for (shown, expected) in state.bom().iter().zip(fixed.iter()) {
        assert_eq!(fields_of(shown), fields_of(expected));
    }
    assert_eq!(fields_of(&state.bom()[0]), ("Steel frame sections", 120, "45.50", "5460.0", 21, 50));
    assert_eq!(fields_of(&state.bom()[1]), ("Electrical fixtures", 80, "32.00", "2560.0", 14, 40));
    assert_eq!(fields_of(&state.bom()[2]), ("Finishing materials", 200, "12.75", "2550.0", 10, 100));
}

#[test]
fn state_with_malformed_text_shows_the_fixed_bom() {
    let state = AppState::demo_with_bom_path(Some(b"h\n\xff\xfe,1,2,3,4,5\n"));
    assert!(same(&state, &AppState::demo_with_bom_path(None)));
    assert_eq!(state.bom().len(), 3);
    assert_eq!(state.bom()[0].name, "Steel frame sections");
}

#[test]
fn state_with_a_source_shows_its_rows() {
    let state = AppState::demo_with_bom_path(Some(TEXT.as_bytes()));
    assert_eq!(state.bom().len(), 2);
    assert_eq!(fields_of(&state.bom()[0]), ("Bolt", 10, "1.50", "15.00", 5, 2));
    assert_eq!(fields_of(&state.bom()[1]), ("Nut", 0, "0.25", "0", 3, 10));
}

#[test]
fn state_with_an_empty_source_shows_no_rows() {
    assert_eq!(AppState::demo_with_bom_path(Some(b"")).bom().len(), 0);
    assert_eq!(AppState::demo_with_bom_path(Some(b"name,quantity\n")).bom().len(), 0);
}

#[test]
fn state_has_the_fixed_summaries() {
    for source in [None, Some(TEXT.as_bytes()), Some(&b"\xff"[..])] {
        let state = AppState::demo_with_bom_path(source);
        let overview: &OverviewSummary = state.overview();
        assert_eq!(overview.title, "Service overview");
        assert_eq!(overview.status, "All systems nominal");
        assert_eq!(overview.key_metrics, ["Latency: 120ms avg", "Error rate: 0.2%", "Active users: 1,245"]);
        let settings: &SettingsSummary = state.settings();
        assert!(settings.configured);
        assert_eq!(
            settings.description,
            "Core credentials and thresholds are configured. Details are kept in the backend layer."
        );
        let advanced: &AdvancedSummary = state.advanced();
        assert_eq!(
            advanced.notes,
            "Space for diagnostic tools, import/export utilities, or one-off power features."
        );
    }
}

#[test]
fn state_is_the_same_when_assembled_twice() {
    for source in [None, Some(TEXT.as_bytes()), Some(&b"\xff"[..]), Some(&b""[..])] {
        let first = AppState::demo_with_bom_path(source);
        let second = AppState::demo_with_bom_path(source);
        assert!(same(&first, &second));
    }
}

#[test]
fn state_getters_give_the_fields() {
    let state = AppState::demo_with_bom_path(Some(TEXT.as_bytes()));
    assert_eq!(state.overview().title, state.overview.title);
    assert_eq!(state.overview().status, state.overview.status);
    assert_eq!(state.overview().key_metrics, state.overview.key_metrics);
    assert_eq!(state.settings().configured, state.settings.configured);
    assert_eq!(state.settings().description, state.settings.description);
    assert_eq!(state.advanced().notes, state.advanced.notes);
    assert_eq!(state.bom().len(), state.bom.len());
    for (shown, held) in state.bom().iter().zip(state.bom.iter()) {
        assert_eq!(fields_of(shown), fields_of(held));
    }
    let copy = state.clone();
    assert!(same(&state, &copy));
}

#[test]
fn settings_status_text() {
    let mut settings = AppState::demo_with_bom_path(None).settings;
    assert_eq!(settings.status_text(), "Profile: configured");
    settings.configured = false;
    assert_eq!(settings.status_text(), "Profile: not configured yet");
}

#[test]
fn tabs_are_labelled_and_ordered() {
    assert_eq!(tab_strip(), [TabKind::Overview, TabKind::Logs, TabKind::Advanced, TabKind::Settings]);
    let labels: Vec<&str> = tab_strip().iter().map(|tab| tab.label()).collect();
    assert_eq!(labels, ["Quote", "Breakdown", "Planning", "Settings"]);
    assert_eq!(TabKind::Overview.label(), "Quote");
    assert_eq!(TabKind::Logs.label(), "Breakdown");
    assert_eq!(TabKind::Advanced.label(), "Planning");
    assert_eq!(TabKind::Settings.label(), "Settings");
}

#[test]
fn picked_tab_becomes_active() {
    assert_eq!(TabKind::initial(), TabKind::Overview);
    for active in tab_strip() {
        for picked in tab_strip() {
            assert_eq!(active.after(Message::TabSelected(picked)), picked);
        }
    }
    let mut active = TabKind::initial();
    active = active.after(Message::TabSelected(TabKind::Logs));
    active = active.after(Message::TabSelected(TabKind::Logs));
    assert_eq!(active, TabKind::Logs);
    assert_ne!(active, TabKind::Overview);
}

#[test]
fn demo_materials_are_the_fixed_rows() {
    let rows: Vec<(&str, u32, u32)> =
        demo_materials().iter().map(|row| (row.name, row.lead_time_days, row.min_quantity)).collect();
    assert_eq!(
        rows,
        [("Steel frame sections", 21, 50), ("Electrical fixtures", 14, 40), ("Finishing materials", 10, 100)]
    );
}

#[test]
fn demo_materials_follow_the_fixed_bom() {
    let rows = demo_materials();
    let items = demo_bom();
    assert_eq!(rows.len(), items.len());
    for (row, item) in rows.iter().zip(items.iter()) {
        assert_eq!((row.name, row.lead_time_days, row.min_quantity), (item.name.as_str(), item.lead_time_days, item.min_quantity));
    }
}

#[test]
fn order_advice_text() {
    let advice: Vec<String> = demo_materials().iter().map(|row| row.order_advice()).collect();
    assert_eq!(
        advice,
        [
            "Order at least 50 units approximately 21 days before installation.",
            "Order at least 40 units approximately 14 days before installation.",
            "Order at least 100 units approximately 10 days before installation.",
        ]
    );
    let row = MaterialRow { name: "x", lead_time_days: 0, min_quantity: u32::MAX };
    assert_eq!(row.order_advice(), "Order at least 4294967295 units approximately 0 days before installation.");
}
