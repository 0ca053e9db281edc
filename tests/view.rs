use brim::progress::{PackageProgress, ProgressState, StateColor};
use brim::progress::ProgressState::{Completed, Downloading, Failed, Installing, Pending};
use brim::renderer::{items_per_screen, overall_percent, view_step, visible_window, Key, Screen, ViewAction};
use brim::store::{EntryUpdate, ProgressStore};

fn store_with(states: &[ProgressState]) -> ProgressStore {
    let names = (0..states.len()).map(|i| format!("p{}", i)).collect();
    let mut store = ProgressStore::new(names);
    for (i, s) in states.iter().enumerate() {
        if *s == ProgressState::Completed || *s == ProgressState::Failed {
            store.update(i, EntryUpdate { state: Some(ProgressState::Installing), percent: None, message: None });
        }
        store.update(i, EntryUpdate { state: Some(*s), percent: None, message: None });
    }
    store
}

#[test]
fn quit_is_ignored_while_work_runs() {
    assert_eq!(view_step(Screen::Live, Some(Key::Quit), false, false, false), ViewAction::Show(Screen::Live));
    assert_eq!(view_step(Screen::Live, Some(Key::Quit), true, false, false), ViewAction::Exit(false));
}

#[test]
fn force_quit_is_honoured_at_any_time() {
    assert_eq!(view_step(Screen::Live, Some(Key::ForceQuit), false, false, true), ViewAction::Exit(true));
    assert_eq!(view_step(Screen::Live, Some(Key::ForceQuit), true, true, true), ViewAction::Exit(true));
}

#[test]
fn completion_leads_to_summary_or_exit() {
    assert_eq!(view_step(Screen::Live, None, true, true, true), ViewAction::Show(Screen::Summary));
    assert_eq!(view_step(Screen::Live, None, true, true, false), ViewAction::Exit(false));
    assert_eq!(view_step(Screen::Live, Some(Key::Other), false, false, true), ViewAction::Show(Screen::Live));
}

#[test]
fn summary_waits_for_a_quit_key() {
    assert_eq!(view_step(Screen::Summary, None, true, true, true), ViewAction::Show(Screen::Summary));
    assert_eq!(view_step(Screen::Summary, Some(Key::Other), true, true, true), ViewAction::Show(Screen::Summary));
    assert_eq!(view_step(Screen::Summary, Some(Key::Quit), true, true, true), ViewAction::Exit(false));
    assert_eq!(view_step(Screen::Summary, Some(Key::ForceQuit), true, true, true), ViewAction::Exit(false));
}

#[test]
fn items_per_screen_has_a_floor_of_one() {
    assert_eq!(items_per_screen(20, 3), 6);
    assert_eq!(items_per_screen(3, 3), 1);
    assert_eq!(items_per_screen(0, 3), 1);
    assert_eq!(items_per_screen(12, 2), 5);
}

#[test]
fn window_starts_before_first_active_entry() {
    let store = store_with(&[Completed, Completed, Failed, Installing, Pending, Pending, Pending, Pending]);
    assert_eq!(visible_window(&store, 3), (2, 3));
}

#[test]
fn window_is_pulled_up_at_the_end() {
    let store = store_with(&[Completed, Completed, Completed, Completed, Installing]);
    assert_eq!(visible_window(&store, 3), (2, 3));
}

#[test]
fn window_of_finished_or_short_lists() {
    let done = store_with(&[Completed, Failed, Completed]);
    assert_eq!(visible_window(&done, 2), (0, 2));
    let short = store_with(&[Pending]);
    assert_eq!(visible_window(&short, 5), (0, 1));
    let empty = store_with(&[]);
    assert_eq!(visible_window(&empty, 4), (0, 0));
}

#[test]
fn overall_percent_values() {
    assert_eq!(overall_percent(0, 0), 0);
    assert_eq!(overall_percent(1, 3), 33);
    assert_eq!(overall_percent(2, 3), 66);
    assert_eq!(overall_percent(3, 3), 100);
    assert_eq!(overall_percent(usize::MAX - 1, usize::MAX), 99);
}

#[test]
fn gauge_label_shows_message_or_percent() {
    let mut store = ProgressStore::new(vec!["a".to_string()]);
    assert_eq!(brim::renderer::gauge_label(store.get(0)), "0%");
    store.update(0, EntryUpdate { state: None, percent: Some(42), message: None });
    assert_eq!(brim::renderer::gauge_label(store.get(0)), "42%");
    store.update(0, EntryUpdate { state: None, percent: None, message: Some("Pouring".to_string()) });
    assert_eq!(brim::renderer::gauge_label(store.get(0)), "Pouring");
}

#[test]
fn progress_label_counts() {
    assert_eq!(brim::renderer::progress_label(2, 10), "2/10 packages");
    assert_eq!(brim::renderer::progress_label(0, 0), "0/0 packages");
}

#[test]
fn decimal_text_values() {
    assert_eq!(brim::text::decimal_text(0), "0");
    assert_eq!(brim::text::decimal_text(7), "7");
    assert_eq!(brim::text::decimal_text(1200), "1200");
    assert_eq!(brim::text::decimal_text(u64::MAX), u64::MAX.to_string());
}

#[test]
fn colors_and_icons_follow_the_state() {

    let mut p = PackageProgress::new("a".to_string());
    assert_eq!(p.state_color(), StateColor::Gray);
    assert_eq!(p.status_icon(), "•");
    p.state = Installing;
    assert_eq!(p.state_color(), StateColor::Blue);
    p.state = ProgressState::Downloading;
    assert_eq!(p.state_color(), StateColor::Yellow);
    p.state = ProgressState::Removing;
    assert_eq!(p.state_color(), StateColor::Magenta);
    p.state = Completed;
    assert_eq!(p.state_color(), StateColor::Green);
    assert_eq!(p.status_icon(), "✓");
    p.state = Failed;
    assert_eq!(p.state_color(), StateColor::Red);
    assert_eq!(p.status_icon(), "✗");
}

#[test]
fn one_row_window_shows_the_running_entry() {
    let store = store_with(&[Completed, Completed, Installing, Pending]);
    assert_eq!(visible_window(&store, 1), (2, 1));
    let store = store_with(&[Completed, Failed, Completed, Downloading]);
    assert_eq!(visible_window(&store, 1), (3, 1));
    let store = store_with(&[Installing, Pending]);
    assert_eq!(visible_window(&store, 1), (0, 1));
}
