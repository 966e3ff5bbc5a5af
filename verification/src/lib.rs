pub mod channels;
pub mod fetcher;
pub mod headlines;

pub use headlines::{Headlines, HeadlinesConfig, Msg, NewsCardData, UiState};
