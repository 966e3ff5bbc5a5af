//! The application state of the headlines reader and the decisions it makes:
//! which screen to show, how the display list grows and is cleared, and what
//! is sent to the background fetcher when the user acts.

use vstd::prelude::*;

use std::sync::mpsc::{Receiver, Sender, SyncSender};

use crate::channels::{new_card_channel, new_msg_channel, send_msg, try_recv_card};

verus! {

/// A control message from the UI loop to the background fetcher.
pub enum Msg {
    ApiKeySet(String),
    Refresh,
}

/// The persisted user configuration: colour theme and the newsapi.org key.
pub struct HeadlinesConfig {
    pub dark_mode: bool,
    pub api_key: String,
}

impl Default for HeadlinesConfig {
    /// A fresh configuration: light theme, no API key.
    fn default() -> (c: Self)
        ensures
            c.dark_mode == false,
            c.api_key@.len() == 0,
    {
        HeadlinesConfig { dark_mode: false, api_key: String::new() }
    }
}

/// One displayable news item.
pub struct NewsCardData {
    pub title: String,
    pub description: String,
    pub url: String,
}

/// The screen the UI loop shows, derived from the application state.
#[derive(Clone, Copy, PartialEq, Eq, Structural, Debug)]
pub enum UiState {
    AwaitingApiKey,
    Loading,
    Displaying,
}

/// The whole application state: the display list, the configuration, whether
/// an API key has been taken into use, and the two channel endpoints the UI
/// loop holds (records coming in, control messages going out).
pub struct Headlines {
    pub articles: Vec<NewsCardData>,
    pub config: HeadlinesConfig,
    pub api_key_initialized: bool,
    pub news_rx: Option<Receiver<NewsCardData>>,
    pub app_tx: Option<SyncSender<Msg>>,
}

impl Headlines {
    /// The display list only exists once an API key was taken into use.
    pub open spec fn wf(self) -> bool {
        !self.api_key_initialized ==> self.articles@.len() == 0
    }

    /// Which screen the UI loop shows: the configuration prompt until a key
    /// is taken into use, then a loading notice until the first record
    /// arrives, then the cards.
    pub open spec fn state(self) -> UiState {
        if !self.api_key_initialized {
            UiState::AwaitingApiKey
        } else if self.articles@.len() == 0 {
            UiState::Loading
        } else {
            UiState::Displaying
        }
    }

    pub fn new() -> (h: Headlines)
        ensures
            h.articles@.len() == 0,
            h.config.dark_mode == false,
            h.config.api_key@.len() == 0,
            !h.api_key_initialized,
            h.news_rx is None,
            h.app_tx is None,
            h.wf(),
            h.state() == UiState::AwaitingApiKey,
    {
        Headlines {
            articles: Vec::new(),
            config: HeadlinesConfig::default(),
            api_key_initialized: false,
            news_rx: None,
            app_tx: None,
        }
    }

    /// The screen the UI loop shows for the current state.
    pub fn current_state(&self) -> (s: UiState)
        ensures
            s == self.state(),
    {
        if !self.api_key_initialized {
            UiState::AwaitingApiKey
        } else if self.articles.len() == 0 {
            UiState::Loading
        } else {
            UiState::Displaying
        }
    }

    /// Creates the two channels the application runs on and keeps the UI
    /// loop's ends: the record receiver and the control sender. The far
    /// ends are handed back for the background fetcher.
    pub fn init_channels(&mut self) -> (far: (Sender<NewsCardData>, Receiver<Msg>))
        ensures
            final(self).news_rx is Some,
            final(self).app_tx is Some,
            final(self).articles == old(self).articles,
            final(self).config == old(self).config,
            final(self).api_key_initialized == old(self).api_key_initialized,
            final(self).wf() == old(self).wf(),
    {
        let (news_tx, news_rx) = new_card_channel();
        let (app_tx, app_rx) = new_msg_channel(1);
        self.news_rx = Some(news_rx);
        self.app_tx = Some(app_tx);
        (news_tx, app_rx)
    }

    /// Takes a configuration loaded from storage into use; a key is in use
    /// exactly when the loaded one is non-empty.
    pub fn apply_loaded_config(&mut self, config: HeadlinesConfig)
        ensures
            final(self).config == config,
            final(self).api_key_initialized == (config.api_key@.len() > 0),
            final(self).articles == old(self).articles,
            final(self).news_rx == old(self).news_rx,
            final(self).app_tx == old(self).app_tx,
            old(self).articles@.len() == 0 ==> final(self).wf(),
    {
        self.api_key_initialized = !config.api_key.as_str().is_empty();
        self.config = config;
    }

    /// Takes what one tick's drain of the record queue yielded into the
    /// display list: the record, if there was one, is appended, and nothing
    /// else changes.
    pub fn absorb_card(&mut self, got: Option<NewsCardData>)
        ensures
            final(self).config == old(self).config,
            final(self).api_key_initialized == old(self).api_key_initialized,
            final(self).news_rx == old(self).news_rx,
            final(self).app_tx == old(self).app_tx,
            got matches Some(card) ==> final(self).articles@ == old(self).articles@.push(card),
            got is None ==> final(self).articles@ == old(self).articles@,
    {
        match got {
            Some(card) => {
                self.articles.push(card);
            },
            None => {},
        }
    }

    /// Drains at most one queued record into the display list; everything
    /// else is left as it was. With no receiver held nothing can arrive and
    /// the list is unchanged. Once the cards are shown they stay shown.
    pub fn preload_articles(&mut self)
        ensures
            final(self).config == old(self).config,
            final(self).api_key_initialized == old(self).api_key_initialized,
            final(self).news_rx == old(self).news_rx,
            final(self).app_tx == old(self).app_tx,
            final(self).articles@ == old(self).articles@ || (exists|card: NewsCardData|
                final(self).articles@ == old(self).articles@.push(card)),
            old(self).news_rx is None ==> final(self).articles@ == old(self).articles@,
            old(self).api_key_initialized ==> final(self).state() != UiState::AwaitingApiKey,
            !old(self).api_key_initialized ==> final(self).state() == UiState::AwaitingApiKey,
            old(self).state() == UiState::Displaying ==> final(self).state() == UiState::Displaying,
    {
        let got: Option<NewsCardData> = match &self.news_rx {
            Some(rx) => try_recv_card(rx),
            None => None,
        };
        self.absorb_card(got);
    }

    /// The user submitted the key standing in the configuration: a non-empty
    /// key is taken into use (leaving the configuration prompt for good) and
    /// announced to the fetcher; an empty key changes nothing. The result
    /// tells whether a message was handed to the control channel.
    pub fn submit_api_key(&mut self) -> (sent: bool)
        ensures
            final(self).config == old(self).config,
            final(self).articles == old(self).articles,
            final(self).news_rx == old(self).news_rx,
            final(self).app_tx == old(self).app_tx,
            final(self).api_key_initialized == (old(self).api_key_initialized
                || old(self).config.api_key@.len() > 0),
            sent ==> old(self).config.api_key@.len() > 0 && old(self).app_tx is Some,
            old(self).config.api_key@.len() == 0 ==> final(self).state() == old(self).state(),
            old(self).api_key_initialized ==> final(self).state() == old(self).state(),
            old(self).wf() && old(self).config.api_key@.len() > 0 && !old(self).api_key_initialized
                ==> final(self).state() == UiState::Loading,
            old(self).wf() ==> final(self).wf(),
    {
        if self.config.api_key.as_str().is_empty() {
            return false;
        }
        self.api_key_initialized = true;
        match &self.app_tx {
            Some(tx) => send_msg(tx, Msg::ApiKeySet(self.config.api_key.clone())),
            None => false,
        }
    }

    /// The user asked for fresh news: the display list is cleared before any
    /// new record can arrive, and the fetcher is told to fetch again. The
    /// result tells whether a message was handed to the control channel.
    pub fn refresh(&mut self) -> (sent: bool)
        ensures
            final(self).articles@.len() == 0,
            final(self).config == old(self).config,
            final(self).api_key_initialized == old(self).api_key_initialized,
            final(self).news_rx == old(self).news_rx,
            final(self).app_tx == old(self).app_tx,
            sent ==> old(self).app_tx is Some,
            final(self).wf(),
            old(self).api_key_initialized ==> final(self).state() == UiState::Loading,
    {
        self.articles.clear();
        match &self.app_tx {
            Some(tx) => send_msg(tx, Msg::Refresh),
            None => false,
        }
    }

    /// The user toggled the colour theme; nothing but the flag changes.
    pub fn toggle_dark_mode(&mut self)
        ensures
            final(self).config.dark_mode == !old(self).config.dark_mode,
            final(self).config.api_key == old(self).config.api_key,
            final(self).articles == old(self).articles,
            final(self).api_key_initialized == old(self).api_key_initialized,
            final(self).news_rx == old(self).news_rx,
            final(self).app_tx == old(self).app_tx,
            final(self).state() == old(self).state(),
    {
        self.config.dark_mode = !self.config.dark_mode;
    }
}

} // verus!
