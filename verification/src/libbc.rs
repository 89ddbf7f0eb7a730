pub mod args;
pub mod http_adapter;
pub mod player;
pub mod playlist;
pub mod progress_bar;
pub mod search;
pub mod shared_data;
pub mod sink;
pub mod strutil;
pub mod terminal;
