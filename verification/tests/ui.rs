use git_flow_tui::git::errors::GitError;
use git_flow_tui::others::exit_code::ExitCode;
use git_flow_tui::shell::ShellError;
use git_flow_tui::ui::pages::{
    accepts_name_char, visible_messages, FinishInput, FinishPage, FinishProcState,
    ListAction, ListPage, MainMenu, MenuAction, StartInput, StartPage, StartProcState,
};
use git_flow_tui::ui::widgets::{InputState, MultiChoice, MultiChoiceState, Popup, TextInput};
use git_flow_tui::ui::{AppState, Key, Kind};

fn strings(v: &[&str]) -> Vec<String> {
    v.iter().map(|s| s.to_string()).collect()
}

#[test]
fn exit_codes() {
    assert_eq!(ExitCode::Success.code(), 0);
    assert_eq!(ExitCode::NotAGitRepository.code(), 1);
    assert_eq!(ExitCode::UncommitedChanges.code(), 2);
}

#[test]
fn multi_choice_moves_within_its_row() {
    let mut m = MultiChoiceState::new();
    assert_eq!(m.selected(), 0);
    m.select_next();
    assert_eq!(m.selected(), 0, "nowhere to go before the choices are known");
    m.set_available(2);
    m.select_next();
    assert_eq!(m.selected(), 1);
    m.select_next();
    assert_eq!(m.selected(), 1);
    m.select_previous();
    assert_eq!(m.selected(), 0);
    m.select_previous();
    assert_eq!(m.selected(), 0);
    m.set_available(0);
    m.select_next();
    assert_eq!(m.selected(), 0);
}

#[test]
fn widgets_hold_what_they_were_given() {
    let p = Popup::new("Error", "Bugfix already exists");
    assert_eq!(p.title(), "Error");
    assert_eq!(p.content(), "Bugfix already exists");
    let mut i = InputState::new("ab");
    i.push('c');
    assert_eq!(i.value, "abc");
    i.pop();
    i.pop();
    assert_eq!(i.value, "a");
    i.clear();
    i.pop();
    assert_eq!(i.value, "");
    assert_eq!(TextInput::new("Enter bugfix name").title, "Enter bugfix name");
    let m = MultiChoice::new("Finish?", strings(&["No", "Yes"]));
    assert_eq!(m.title(), "Finish?");
    assert_eq!(m.options(), &strings(&["No", "Yes"]));
}

#[test]
fn name_characters() {
    for c in ['a', 'z', 'A', 'Z', '0', '9', '-'] {
        assert!(accepts_name_char(c));
    }
    for c in [' ', '/', '_', '*', 'é', '.', '\n'] {
        assert!(!accepts_name_char(c));
    }
    for u in 0u32..0x300 {
        if let Some(c) = char::from_u32(u) {
            assert_eq!(accepts_name_char(c), c.is_ascii_alphanumeric() || c == '-');
        }
    }
}

#[test]
fn visible_messages_show_the_last_lines() {
    let m = strings(&["one", "two", "three"]);
    assert_eq!(visible_messages(&m, 2), "two\nthree");
    assert_eq!(visible_messages(&m, 5), "one\ntwo\nthree");
    assert_eq!(visible_messages(&m, 0), "");
    assert_eq!(visible_messages(&[], 3), "");
}

#[test]
fn kinds_lead_to_their_screens() {
    assert_eq!(Kind::Feature.back_state(), AppState::FeatureList);
    assert_eq!(Kind::Release.back_state(), AppState::ReleaseList);
    assert_eq!(Kind::Bugfix.back_state(), AppState::BugfixList);
    assert_eq!(Kind::Hotfix.back_state(), AppState::MainMenu);
    assert_eq!(Kind::Feature.start_state(), AppState::FeatureStart);
    assert_eq!(Kind::Bugfix.start_state(), AppState::BugfixStart);
    assert_eq!(Kind::Hotfix.start_state(), AppState::HotfixStart);
    assert_eq!(Kind::Release.finish_state(), Some(AppState::ReleaseFinish));
    assert_eq!(Kind::Hotfix.finish_state(), None);
    assert_eq!(Kind::tab_kind(0), Kind::Feature);
    assert_eq!(Kind::tab_kind(2), Kind::Bugfix);
    assert_eq!(Kind::tab_kind(3), Kind::Hotfix);
    assert_eq!(Kind::Bugfix.name(), "bugfix");
    assert_eq!(Kind::Hotfix.taken_message(), "Hotfix already exists");
    assert_eq!(Kind::Bugfix.start_title(), "Start bugfix");
    assert_eq!(Kind::Feature.finish_title(), "Finish feature");
    assert_eq!(Kind::Release.name_prompt(), "Enter release name");
    assert!(Kind::Hotfix.fetches() && !Kind::Bugfix.fetches());
    assert!(!Kind::Feature.checks_remote_branches() && Kind::Release.checks_remote_branches());
}

#[test]
fn main_menu_keys() {
    let mut m = MainMenu::new();
    assert_eq!(m.tab(), 0);
    assert_eq!(m.handle_input(&Key::Esc), MenuAction::Quit);
    assert_eq!(m.handle_input(&Key::Char('q')), MenuAction::Quit);
    assert_eq!(m.handle_input(&Key::Char('Q')), MenuAction::Quit);
    m.shown(strings(&["a", "b"]));
    m.handle_input(&Key::Down);
    assert_eq!(m.page().selected(), Some(1));
    // Left on the first tab keeps the tab, and the list with it.
    assert_eq!(m.handle_input(&Key::Left), MenuAction::Page(ListAction::Nothing));
    assert_eq!(m.tab(), 0);
    assert_eq!(m.page().selected(), Some(1));
    m.handle_input(&Key::Right);
    assert_eq!(m.tab(), 1);
    assert_eq!(m.page().kind(), Kind::Release);
    assert_eq!(m.page().selected(), Some(0));
    m.handle_input(&Key::Right);
    m.handle_input(&Key::Right);
    assert_eq!(m.tab(), 3);
    m.handle_input(&Key::Right);
    assert_eq!(m.tab(), 3);
    assert_eq!(m.page().kind(), Kind::Hotfix);
    assert_eq!(m.handle_input(&Key::Char('+')), MenuAction::Page(ListAction::Goto(AppState::HotfixStart)));
    m.shown(strings(&["h"]));
    assert_eq!(m.handle_input(&Key::Delete), MenuAction::Page(ListAction::Nothing), "hotfixes have no finish screen");
    m.handle_input(&Key::Left);
    assert_eq!(m.tab(), 2);
    assert_eq!(m.handle_input(&Key::Char('+')), MenuAction::Page(ListAction::Goto(AppState::BugfixStart)));
}

#[test]
fn list_keys() {
    let mut p = ListPage::new(Kind::Bugfix);
    assert_eq!(p.selected(), Some(0));
    assert_eq!(p.handle_input(&Key::Delete), ListAction::Nothing, "nothing shown yet");
    p.shown(strings(&["one", "two"]));
    assert_eq!(p.handle_input(&Key::Esc), ListAction::Goto(AppState::MainMenu));
    assert_eq!(p.handle_input(&Key::Char('+')), ListAction::Goto(AppState::BugfixStart));
    assert_eq!(p.handle_input(&Key::Char('x')), ListAction::Nothing);
    assert_eq!(p.handle_input(&Key::Down), ListAction::Nothing);
    assert_eq!(p.selected(), Some(1));
    assert_eq!(
        p.handle_input(&Key::Delete),
        ListAction::Finish("two".to_string(), AppState::BugfixFinish)
    );
    p.handle_input(&Key::Down);
    assert_eq!(p.selected(), Some(2));
    assert_eq!(p.handle_input(&Key::Delete), ListAction::Nothing);
    p.shown(strings(&["one", "two"]));
    assert_eq!(p.selected(), Some(1), "the selection stays inside the list");
    p.handle_input(&Key::Up);
    p.handle_input(&Key::Up);
    assert_eq!(p.selected(), Some(0));
    p.shown(Vec::new());
    assert_eq!(p.selected(), None);
    p.handle_input(&Key::Up);
    assert_eq!(p.selected(), Some(usize::MAX));
    p.shown(strings(&["a", "b", "c"]));
    assert_eq!(p.selected(), Some(2));
}

#[test]
fn start_page_types_names_and_checks_them() {
    let mut p = StartPage::new(Kind::Bugfix);
    assert_eq!(p.state(), &StartProcState::EnterName);
    assert_eq!(p.footer(), Some("Esc: back".to_string()));
    for c in ['f', 'i', 'x', ' ', '/', '-', '1'] {
        assert_eq!(p.handle_input(&Key::Char(c)), StartInput::Nothing);
    }
    assert_eq!(p.name(), "fix-1");
    assert_eq!(p.footer(), Some("Enter: continue | Esc: back".to_string()));
    p.handle_input(&Key::Backspace);
    assert_eq!(p.name(), "fix-");
    assert_eq!(p.footer(), Some("Esc: back".to_string()), "Enter needs more than four characters");
    assert_eq!(p.handle_input(&Key::Enter), StartInput::CheckName);
    let local = strings(&["fix-", "other"]);
    assert!(!p.confirm_name(&local, &[]));
    assert_eq!(p.name(), "");
    assert_eq!(p.popup_message(), Some(&"Bugfix already exists".to_string()));
    assert_eq!(p.handle_input(&Key::Esc), StartInput::Nothing);
    assert_eq!(p.popup_message(), None);
    p.handle_input(&Key::Char('m'));
    assert!(!p.confirm_name(&[], &strings(&["m"])), "remote bugfixes count too");
    assert_eq!(p.popup_message(), Some(&"Bugfix already exists".to_string()));
    p.handle_input(&Key::Esc);
    p.handle_input(&Key::Char('n'));
    assert!(p.confirm_name(&local, &strings(&["m"])));
    assert_eq!(p.state(), &StartProcState::Creating);
    assert_eq!(p.footer(), None);
    assert_eq!(p.handle_input(&Key::Esc), StartInput::Nothing);
    p.handle_input(&Key::Char('z'));
    assert_eq!(p.name(), "n");
    p.add_message("  Starting pipeline".to_string());
    assert_eq!(p.messages(), &strings(&["  Starting pipeline"]));
    p.worker_finished(false);
    assert_eq!(p.state(), &StartProcState::Creating);
    p.worker_finished(true);
    assert_eq!(p.state(), &StartProcState::Finished);
    assert_eq!(p.handle_input(&Key::Esc), StartInput::Back(AppState::BugfixList));
}

#[test]
fn feature_start_says_a_taken_name_once() {
    let mut p = StartPage::new(Kind::Feature);
    for c in "login".chars() {
        p.handle_input(&Key::Char(c));
    }
    let local = strings(&["login"]);
    assert!(!p.confirm_name(&local, &[]));
    assert_eq!(p.popup_message(), None);
    assert_eq!(p.messages(), &strings(&["Feature already exists"]));
    for c in "login".chars() {
        p.handle_input(&Key::Char(c));
    }
    assert!(!p.confirm_name(&local, &[]));
    assert_eq!(p.messages(), &strings(&["Feature already exists"]));
    p.handle_input(&Key::Char('x'));
    assert!(p.confirm_name(&local, &strings(&["x"])), "remote features are not checked");
    assert_eq!(p.state(), &StartProcState::Creating);
    p.worker_finished(true);
    assert_eq!(p.handle_input(&Key::Esc), StartInput::Back(AppState::FeatureList));
}

#[test]
fn start_page_fetches_first() {
    let mut p = StartPage::new(Kind::Hotfix);
    assert_eq!(p.state(), &StartProcState::Fetching);
    assert_eq!(p.messages(), &strings(&["Fetching from remotes..."]));
    assert_eq!(p.handle_input(&Key::Esc), StartInput::Nothing);
    assert_eq!(p.handle_input(&Key::Enter), StartInput::Nothing);
    p.fetched(&Ok(()));
    assert_eq!(p.state(), &StartProcState::EnterName);
    assert_eq!(p.handle_input(&Key::Esc), StartInput::Back(AppState::MainMenu));

    let mut q = StartPage::new(Kind::Hotfix);
    let failure = GitError::FetchFailed(ShellError::BadExitStatus(128, "offline".to_string()));
    q.fetched(&Err(failure));
    assert_eq!(
        q.messages(),
        &strings(&[
            "Fetching from remotes...",
            "Could not fetch remotes\n  Caused by: Program finished with status 128. Error output:\n  offline"
        ])
    );
    assert_eq!(q.state(), &StartProcState::Finished);
    q.fetched(&Ok(()));
    assert_eq!(q.state(), &StartProcState::Finished);
}

#[test]
fn finish_page_confirms() {
    let mut p = FinishPage::new(Kind::Bugfix, "fix".to_string());
    assert_eq!(p.name(), "fix");
    assert_eq!(p.question(), "Are you sure you want to finish 'fix' bugfix?");
    assert_eq!(p.footer(), Some("Left/Right: navigate | Enter: select | Esc: back".to_string()));
    assert_eq!(p.handle_input(&Key::Enter), FinishInput::Back(AppState::BugfixList), "No is selected first");
    p.set_choices(2);
    p.handle_input(&Key::Down);
    assert_eq!(p.entry().selected(), 0, "bugfixes choose with Left and Right");
    p.handle_input(&Key::Right);
    assert_eq!(p.entry().selected(), 1);
    assert_eq!(p.handle_input(&Key::Enter), FinishInput::StartFinishing);
    assert_eq!(p.state(), &FinishProcState::Finishing);
    assert_eq!(p.footer(), None);
    assert_eq!(p.handle_input(&Key::Esc), FinishInput::Nothing);
    assert_eq!(p.handle_input(&Key::Left), FinishInput::Nothing);
    assert_eq!(p.entry().selected(), 1);
    p.add_message("done".to_string());
    assert_eq!(p.messages(), &strings(&["done"]));
    p.worker_finished(true);
    assert_eq!(p.state(), &FinishProcState::Finished);
    assert_eq!(p.footer(), Some("Esc: back".to_string()));
    assert_eq!(p.handle_input(&Key::Esc), FinishInput::Back(AppState::BugfixList));
}

#[test]
fn feature_finish_chooses_with_up_and_down() {
    let mut p = FinishPage::new(Kind::Feature, "login".to_string());
    assert_eq!(p.footer(), Some("Up/Down: navigate | Enter: select | Esc: back".to_string()));
    p.set_choices(2);
    p.handle_input(&Key::Right);
    assert_eq!(p.entry().selected(), 0);
    p.handle_input(&Key::Down);
    assert_eq!(p.entry().selected(), 1);
    p.handle_input(&Key::Down);
    assert_eq!(p.entry().selected(), 1);
    p.handle_input(&Key::Up);
    assert_eq!(p.entry().selected(), 0);
    assert_eq!(p.handle_input(&Key::Enter), FinishInput::Back(AppState::FeatureList));
    p.handle_input(&Key::Down);
    assert_eq!(p.handle_input(&Key::Enter), FinishInput::StartFinishing);
}
