pub mod account;
pub mod anime;
pub mod animelists;
pub mod category;
pub mod timetables;

use vstd::prelude::*;

verus! {

/// Where the API is.
pub const API_URL: &'static str = "https://animeschedule.net/api/v3";

/// Where anime are listed; one anime is under its slug below this.
pub const API_ANIME: &'static str = "https://animeschedule.net/api/v3/anime";

/// Where the categories are, each kind under its name below this.
pub const API_CATEGORIES: &'static str = "https://animeschedule.net/api/v3/categories";

/// Where the timetable of a week is; one kind of release is under its name
/// below this.
pub const API_TIMETABLES: &'static str = "https://animeschedule.net/api/v3/timetables";

/// Where the users are, each under its id below this.
pub const API_USERS: &'static str = "https://animeschedule.net/api/v3/users";

/// Where the anime lists are: that of a user under the user's id below this,
/// that of the user who granted access under `oauth`.
pub const API_ANIMELISTS: &'static str = "https://animeschedule.net/api/v3/animelists";

/// Where the anime list of the user who granted access is.
pub const API_ANIMELISTS_OAUTH: &'static str = "https://animeschedule.net/api/v3/animelists/oauth";

} // verus!
