use headlines::{Headlines, HeadlinesConfig, Msg, UiState};

#[test]
fn new_starts_awaiting_api_key() {
    let h = Headlines::new();
    assert_eq!(h.current_state(), UiState::AwaitingApiKey);
    assert!(h.articles.is_empty());
    assert!(!h.api_key_initialized);
    assert!(h.news_rx.is_none());
    assert!(h.app_tx.is_none());
}

#[test]
fn default_config_is_light_with_no_key() {
    let c = HeadlinesConfig::default();
    assert!(!c.dark_mode);
    assert_eq!(c.api_key, "");
}

#[test]
fn submitting_empty_key_stays_awaiting() {
    let mut h = Headlines::new();
    let (_news_tx, app_rx) = h.init_channels();
    let sent = h.submit_api_key();
    assert!(!sent);
    assert!(!h.api_key_initialized);
    assert_eq!(h.current_state(), UiState::AwaitingApiKey);
    assert!(app_rx.try_recv().is_err());
}

#[test]
fn submitting_nonempty_key_loads_exactly_once() {
    let mut h = Headlines::new();
    let (_news_tx, app_rx) = h.init_channels();
    h.config.api_key = "abc123".to_string();
    let sent = h.submit_api_key();
    assert!(sent);
    assert!(h.api_key_initialized);
    assert_eq!(h.current_state(), UiState::Loading);
    match app_rx.try_recv().expect("a control message was sent") {
        Msg::ApiKeySet(k) => assert_eq!(k, "abc123"),
        Msg::Refresh => panic!("expected the key, not a refresh"),
    }
    // a second submission finds the key already in use and leaves it so
    let _ = h.submit_api_key();
    assert!(h.api_key_initialized);
    assert_eq!(h.current_state(), UiState::Loading);
}

#[test]
fn refresh_clears_display_list_before_any_append() {
    let mut h = Headlines::new();
    let (news_tx, app_rx) = h.init_channels();
    h.config.api_key = "k".to_string();
    let _ = h.submit_api_key();
    let _ = app_rx.try_recv();
    headlines::fetcher::publish_articles(
        &news_tx,
        vec![("one".to_string(), "https://a".to_string())],
    );
    h.preload_articles();
    assert_eq!(h.current_state(), UiState::Displaying);
    let sent = h.refresh();
    assert!(sent);
    assert!(h.articles.is_empty());
    assert_eq!(h.current_state(), UiState::Loading);
    match app_rx.try_recv().expect("a control message was sent") {
        Msg::Refresh => {}
        Msg::ApiKeySet(_) => panic!("expected a refresh"),
    }
}

#[test]
fn preload_appends_at_most_one_record_per_tick() {
    let mut h = Headlines::new();
    let (news_tx, _app_rx) = h.init_channels();
    h.config.api_key = "k".to_string();
    let _ = h.submit_api_key();
    let sent = headlines::fetcher::publish_articles(
        &news_tx,
        vec![
            ("first".to_string(), "https://a".to_string()),
            ("second".to_string(), "https://b".to_string()),
        ],
    );
    assert_eq!(sent, 2);
    h.preload_articles();
    assert_eq!(h.articles.len(), 1);
    assert_eq!(h.articles[0].title, "first");
    assert_eq!(h.articles[0].url, "https://a");
    assert_eq!(h.articles[0].description, "default description");
    h.preload_articles();
    assert_eq!(h.articles.len(), 2);
    assert_eq!(h.articles[1].title, "second");
    // the queue is drained; a further tick changes nothing
    h.preload_articles();
    assert_eq!(h.articles.len(), 2);
    assert_eq!(h.current_state(), UiState::Displaying);
}

#[test]
fn absorbing_a_drained_record_appends_exactly_it() {
    let mut h = Headlines::new();
    h.apply_loaded_config(HeadlinesConfig { dark_mode: false, api_key: "k".to_string() });
    let card = headlines::fetcher::make_card("t".to_string(), "https://u".to_string());
    h.absorb_card(Some(card));
    assert_eq!(h.articles.len(), 1);
    assert_eq!(h.articles[0].title, "t");
    assert_eq!(h.articles[0].url, "https://u");
    h.absorb_card(None);
    assert_eq!(h.articles.len(), 1);
}

#[test]
fn preload_without_channel_changes_nothing() {
    let mut h = Headlines::new();
    h.preload_articles();
    assert!(h.articles.is_empty());
    assert_eq!(h.current_state(), UiState::AwaitingApiKey);
}

#[test]
fn toggle_dark_mode_flips_only_the_theme() {
    let mut h = Headlines::new();
    h.config.api_key = "k".to_string();
    h.toggle_dark_mode();
    assert!(h.config.dark_mode);
    assert_eq!(h.config.api_key, "k");
    assert_eq!(h.current_state(), UiState::AwaitingApiKey);
    h.toggle_dark_mode();
    assert!(!h.config.dark_mode);
}

#[test]
fn loaded_config_with_key_skips_the_prompt() {
    let mut h = Headlines::new();
    h.apply_loaded_config(HeadlinesConfig { dark_mode: true, api_key: "stored".to_string() });
    assert!(h.api_key_initialized);
    assert!(h.config.dark_mode);
    assert_eq!(h.config.api_key, "stored");
    assert_eq!(h.current_state(), UiState::Loading);
}

#[test]
fn loaded_config_without_key_prompts() {
    let mut h = Headlines::new();
    h.apply_loaded_config(HeadlinesConfig::default());
    assert!(!h.api_key_initialized);
    assert_eq!(h.current_state(), UiState::AwaitingApiKey);
}
