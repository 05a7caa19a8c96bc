pub mod api;
pub mod auth_header;
pub mod error;
pub mod http;
pub mod models;
pub mod pagination;
pub mod signature;
pub mod text;
pub mod token;

pub use crate::error::Error;
pub use crate::models::album::Album;
pub use crate::models::all_playlists::{Playlist, PlaylistShareState, PlaylistType};
pub use crate::models::all_tracks::Track;
pub use crate::models::artist::Artist;
pub use crate::models::playlist_entries::PlaylistEntry;
pub use crate::token::{AuthToken, Token};
