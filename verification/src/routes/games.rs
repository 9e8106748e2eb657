//! The decisions of the game catalogue endpoints.
use vstd::prelude::*;
use vstd::string::*;
use crate::entities::game::CatalogGame;
use crate::entities::user::UserRecord;
use crate::error::AppError;
use crate::ids::{append_uuid, spec_uuid_text};
use crate::routes::slug::{spec_slug, unique_slug};
use crate::text::{byte_len, spec_trim, str_eq, trim};

verus! {

/// Pagination of a listing.
#[derive(Debug, Clone)]
pub struct PaginationQuery {
    pub offset: u64,
    pub limit: u64,
}

/// Pagination of the caller's own games, optionally by status.
#[derive(Debug, Clone)]
pub struct MyGamesQuery {
    pub offset: u64,
    pub limit: u64,
    pub status: Option<String>,
}

/// Offset of a listing when none is given.
pub fn default_offset() -> (r: u64)
    ensures
        r == 0,
{
    0
}

/// Page size of a listing when none is given.
pub fn default_limit() -> (r: u64)
    ensures
        r == 20,
{
    20
}

/// Whether the viewer (if any) created the game.
pub fn is_creator(game: &CatalogGame, viewer: Option<u128>) -> (r: bool)
    ensures
        r == (viewer == Some(game.owner_id)),
{
    match viewer {
        Some(v) => v == game.owner_id,
        None => false,
    }
}

/// The canvas codes an answer shows: both when the code is to be included (for the
/// game's creator), neither otherwise.
pub fn shown_codes(game: &CatalogGame, include_code: bool) -> (r: (Option<String>, Option<String>))
    ensures
        include_code ==> r.0 == game.game_screen_code && r.1 == game.controller_screen_code,
        !include_code ==> r.0 is None && r.1 is None,
{
    if include_code {
        (game.game_screen_code.clone(), game.controller_screen_code.clone())
    } else {
        (None, None)
    }
}

/// Fields of a game a creator may change; `None` leaves a field as it is.
#[derive(Debug, Clone)]
pub struct UpdateGameRequest {
    pub title: Option<String>,
    pub description: Option<String>,
    pub thumbnail_url: Option<String>,
    pub min_players: Option<i32>,
    pub max_players: Option<i32>,
    pub visibility: Option<String>,
    pub game_screen_code: Option<String>,
    pub controller_screen_code: Option<String>,
}

/// Whether `user` may see `game`: private games only by their creator.
pub open spec fn spec_visible(game: CatalogGame, user_id: Option<u128>) -> bool {
    game.visibility@ == "private"@ ==> user_id == Some(game.owner_id)
}

/// Whether `user` may delete or archive `game`: its creator, a moderator or an admin.
pub open spec fn spec_may_manage(game: CatalogGame, user: UserRecord) -> bool {
    game.owner_id == user.id || user.role@ == "moderator"@ || user.role@ == "admin"@
}

/// Whether a canvas code is missing or blank.
pub open spec fn blank_code(code: Option<String>) -> bool {
    match code {
        Some(c) => spec_trim(c@).len() == 0,
        None => true,
    }
}

/// Whether a game's status agrees with its published version: published exactly when it
/// has one (archived games aside).
pub open spec fn status_consistent(game: CatalogGame) -> bool {
    (game.status@ == "draft"@ && game.published_version_id is None) || (game.status@ == "published"@
        && game.published_version_id is Some)
}

/// `NotFound("Game not found")` unless `user_id` may see `game`.
pub fn check_visibility(game: &CatalogGame, user_id: Option<u128>) -> (r: Result<(), AppError>)
    ensures
        r is Ok <==> spec_visible(*game, user_id),
        r matches Err(e) ==> (e matches AppError::NotFound(m) && m@ == "Game not found"@),
{
    if str_eq(game.visibility.as_str(), "private") {
        match user_id {
            Some(uid) => if uid == game.owner_id {
                Ok(())
            } else {
                Err(AppError::NotFound(String::from_str("Game not found")))
            },
            None => Err(AppError::NotFound(String::from_str("Game not found"))),
        }
    } else {
        Ok(())
    }
}

/// `Forbidden("You are not the creator of this game")` unless `user_id` created `game`.
pub fn require_creator(game: &CatalogGame, user_id: u128) -> (r: Result<(), AppError>)
    ensures
        r is Ok <==> game.owner_id == user_id,
        r matches Err(e) ==> (e matches AppError::Forbidden(m) && m@
            == "You are not the creator of this game"@),
{
    if game.owner_id != user_id {
        return Err(AppError::Forbidden(String::from_str("You are not the creator of this game")));
    }
    Ok(())
}

/// Whether `user` may delete or archive `game`.
pub fn may_manage(game: &CatalogGame, user: &UserRecord) -> (r: bool)
    ensures
        r == spec_may_manage(*game, *user),
{
    game.owner_id == user.id || str_eq(user.role.as_str(), "moderator") || str_eq(
        user.role.as_str(),
        "admin",
    )
}

/// Checks a create request: a title that is not blank, and player bounds (defaults 1 and 4)
/// with `max >= min`. Gives the bounds.
pub fn check_new_game(title: &str, min_players: Option<i32>, max_players: Option<i32>) -> (r:
    Result<(i32, i32), AppError>)
    ensures
        spec_trim(title@).len() == 0 ==> (r matches Err(AppError::BadRequest(m)) && m@
            == "Title is required"@),
        r is Ok <==> (spec_trim(title@).len() > 0 && match (min_players, max_players) {
            (mn, mx) => {
                let lo = match mn { Some(v) => v, None => 1 };
                let hi = match mx { Some(v) => v, None => 4 };
                hi >= lo
            },
        }),
        spec_trim(title@).len() > 0 && r is Err ==> (r matches Err(AppError::BadRequest(m)) && m@
            == "maxPlayers must be >= minPlayers"@),
        r matches Ok((lo, hi)) ==> lo == (match min_players { Some(v) => v, None => 1 }) && hi == (
        match max_players { Some(v) => v, None => 4 }),
{
    if trim(title).is_empty() {
        return Err(AppError::BadRequest(String::from_str("Title is required")));
    }
    let min = match min_players {
        Some(v) => v,
        None => 1,
    };
    let max = match max_players {
        Some(v) => v,
        None => 4,
    };
    if max < min {
        return Err(AppError::BadRequest(String::from_str("maxPlayers must be >= minPlayers")));
    }
    Ok((min, max))
}

/// A new draft: private, technology `p5js` unless given, slug from the title.
pub fn draft_game(
    id: u128,
    owner_id: u128,
    title: String,
    description: Option<String>,
    technology: Option<String>,
    min_players: i32,
    max_players: i32,
) -> (g: CatalogGame)
    ensures
        g.id == id,
        g.owner_id == owner_id,
        g.title == title,
        g.slug@ == spec_slug(title@, id),
        g.description == description,
        g.thumbnail is None,
        g.technology@ == match technology {
            Some(t) => t@,
            None => "p5js"@,
        },
        g.status@ == "draft"@,
        g.visibility@ == "private"@,
        g.min_players == min_players,
        g.max_players == max_players,
        g.published_version_id is None,
        g.game_screen_code is None,
        g.controller_screen_code is None,
        g.forked_from_id is None,
        status_consistent(g),
{
    let slug = unique_slug(title.as_str(), id);
    let technology = match technology {
        Some(t) => t,
        None => String::from_str("p5js"),
    };
    CatalogGame {
        id,
        owner_id,
        title,
        slug,
        description,
        thumbnail: None,
        technology,
        status: String::from_str("draft"),
        visibility: String::from_str("private"),
        min_players,
        max_players,
        published_version_id: None,
        game_screen_code: None,
        controller_screen_code: None,
        forked_from_id: None,
    }
}

/// The game after an update by `user_id`: only its creator may update; the resulting
/// bounds must keep `max >= min`; a new title may not be blank and renews the slug.
pub fn plan_update(game: CatalogGame, user_id: u128, req: UpdateGameRequest) -> (r: Result<
    CatalogGame,
    AppError,
>)
    ensures
        game.owner_id != user_id ==> (r matches Err(AppError::Forbidden(m)) && m@
            == "You are not the creator of this game"@),
        game.owner_id == user_id && (match req.max_players { Some(v) => v, None => game.max_players })
            < (match req.min_players { Some(v) => v, None => game.min_players }) ==> (r matches Err(
            AppError::BadRequest(m),
        ) && m@ == "maxPlayers must be >= minPlayers"@),
        r is Ok <==> (game.owner_id == user_id && (match req.max_players {
            Some(v) => v,
            None => game.max_players,
        }) >= (match req.min_players { Some(v) => v, None => game.min_players }) && match req.title {
            Some(t) => spec_trim(t@).len() > 0,
            None => true,
        }),
        r is Err && game.owner_id == user_id && (match req.max_players { Some(v) => v, None => game.max_players })
            >= (match req.min_players { Some(v) => v, None => game.min_players }) ==> (r matches Err(
            AppError::BadRequest(m),
        ) && m@ == "Title cannot be empty"@),
        r matches Ok(g) ==> {
            &&& g.id == game.id && g.owner_id == game.owner_id && g.technology == game.technology
            &&& g.status == game.status && g.published_version_id == game.published_version_id
            &&& g.forked_from_id == game.forked_from_id
            &&& g.title == match req.title { Some(t) => t, None => game.title }
            &&& g.slug@ == match req.title { Some(t) => spec_slug(t@, game.id), None => game.slug@ }
            &&& g.description == match req.description { Some(d) => Some(d), None => game.description }
            &&& g.thumbnail == match req.thumbnail_url { Some(d) => Some(d), None => game.thumbnail }
            &&& g.min_players == match req.min_players { Some(v) => v, None => game.min_players }
            &&& g.max_players == match req.max_players { Some(v) => v, None => game.max_players }
            &&& g.visibility == match req.visibility { Some(v) => v, None => game.visibility }
            &&& g.game_screen_code == match req.game_screen_code { Some(c) => Some(c), None => game.game_screen_code }
            &&& g.controller_screen_code == match req.controller_screen_code {
                Some(c) => Some(c),
                None => game.controller_screen_code,
            }
        },
{
    if game.owner_id != user_id {
        return Err(AppError::Forbidden(String::from_str("You are not the creator of this game")));
    }
    let effective_min = match req.min_players {
        Some(v) => v,
        None => game.min_players,
    };
    let effective_max = match req.max_players {
        Some(v) => v,
        None => game.max_players,
    };
    if effective_max < effective_min {
        return Err(AppError::BadRequest(String::from_str("maxPlayers must be >= minPlayers")));
    }
    let mut g = game;
    match req.title {
        Some(title) => {
            if trim(title.as_str()).is_empty() {
                return Err(AppError::BadRequest(String::from_str("Title cannot be empty")));
            }
            g.slug = unique_slug(title.as_str(), g.id);
            g.title = title;
        },
        None => {},
    }
    match req.description {
        Some(d) => g.description = Some(d),
        None => {},
    }
    match req.thumbnail_url {
        Some(t) => g.thumbnail = Some(t),
        None => {},
    }
    g.min_players = effective_min;
    g.max_players = effective_max;
    match req.visibility {
        Some(v) => g.visibility = v,
        None => {},
    }
    match req.game_screen_code {
        Some(c) => g.game_screen_code = Some(c),
        None => {},
    }
    match req.controller_screen_code {
        Some(c) => g.controller_screen_code = Some(c),
        None => {},
    }
    Ok(g)
}

/// Deleting needs the creator, a moderator or an admin.
pub fn check_delete(game: &CatalogGame, user: &UserRecord) -> (r: Result<(), AppError>)
    ensures
        r is Ok <==> spec_may_manage(*game, *user),
        r matches Err(e) ==> (e matches AppError::Forbidden(m) && m@
            == "You are not authorized to delete this game"@),
{
    if !may_manage(game, user) {
        return Err(AppError::Forbidden(String::from_str("You are not authorized to delete this game")));
    }
    Ok(())
}

/// The first check of a publish, made before the game is looked up: the caller's email
/// must be verified.
pub fn check_publisher(user: &UserRecord) -> (r: Result<(), AppError>)
    ensures
        r is Ok <==> user.email_verified,
        r matches Err(e) ==> (e matches AppError::Unprocessable(c, m) && c@ == "EMAIL_NOT_VERIFIED"@
            && m@ == "Email must be verified to publish games"@),
{
    if !user.email_verified {
        return Err(
            AppError::Unprocessable(
                String::from_str("EMAIL_NOT_VERIFIED"),
                String::from_str("Email must be verified to publish games"),
            ),
        );
    }
    Ok(())
}

/// Why a publish of `game` by `user` is refused, in the order of the checks: the email
/// must be verified, the user must be the creator, the title must not be blank and at
/// least one canvas code must not be blank.
pub open spec fn publish_refused(user: UserRecord, game: CatalogGame) -> bool {
    !user.email_verified || game.owner_id != user.id || spec_trim(game.title@).len() == 0 || (
    blank_code(game.game_screen_code) && blank_code(game.controller_screen_code))
}

/// Checks a publish by `user` of the found `game`: the email must be verified, the user
/// must be the creator, the title must not be blank and at least one canvas code must
/// not be blank, each refusal with its own answer.
pub fn check_publish(user: &UserRecord, game: &CatalogGame) -> (r: Result<(), AppError>)
    ensures
        !user.email_verified ==> (r matches Err(AppError::Unprocessable(c, m)) && c@
            == "EMAIL_NOT_VERIFIED"@ && m@ == "Email must be verified to publish games"@),
        user.email_verified && game.owner_id != user.id ==> (r matches Err(AppError::Forbidden(m))
            && m@ == "You are not the creator of this game"@),
        user.email_verified && game.owner_id == user.id && spec_trim(game.title@).len() == 0 ==> (r matches Err(
            AppError::Unprocessable(c, m),
        ) && c@ == "INVALID_GAME"@ && m@ == "Game must have a title"@),
        user.email_verified && game.owner_id == user.id && spec_trim(game.title@).len() > 0
            && blank_code(game.game_screen_code) && blank_code(game.controller_screen_code) ==> (r matches Err(
            AppError::Unprocessable(c, m),
        ) && c@ == "INVALID_GAME"@ && m@ == "Game must have at least one non-empty canvas code"@),
        r is Ok <==> !publish_refused(*user, *game),
{
    match check_publisher(user) {
        Ok(()) => {},
        Err(e) => return Err(e),
    }
    if game.owner_id != user.id {
        return Err(AppError::Forbidden(String::from_str("You are not the creator of this game")));
    }
    if trim(game.title.as_str()).is_empty() {
        return Err(
            AppError::Unprocessable(
                String::from_str("INVALID_GAME"),
                String::from_str("Game must have a title"),
            ),
        );
    }
    let screen_empty = match &game.game_screen_code {
        Some(c) => trim(c.as_str()).is_empty(),
        None => true,
    };
    let ctrl_empty = match &game.controller_screen_code {
        Some(c) => trim(c.as_str()).is_empty(),
        None => true,
    };
    if screen_empty && ctrl_empty {
        return Err(
            AppError::Unprocessable(
                String::from_str("INVALID_GAME"),
                String::from_str("Game must have at least one non-empty canvas code"),
            ),
        );
    }
    Ok(())
}

/// Checks a publish by `user` (as `check_publish` does) and gives the number of the new
/// version: one more than the versions so far, as an `i32`.
pub fn plan_publish(user: &UserRecord, game: &CatalogGame, version_count: u64) -> (r: Result<
    i32,
    AppError,
>)
    requires
        version_count < u64::MAX,
    ensures
        !user.email_verified ==> (r matches Err(AppError::Unprocessable(c, m)) && c@
            == "EMAIL_NOT_VERIFIED"@ && m@ == "Email must be verified to publish games"@),
        user.email_verified && game.owner_id != user.id ==> (r matches Err(AppError::Forbidden(m))
            && m@ == "You are not the creator of this game"@),
        user.email_verified && game.owner_id == user.id && spec_trim(game.title@).len() == 0 ==> (r matches Err(
            AppError::Unprocessable(c, m),
        ) && c@ == "INVALID_GAME"@ && m@ == "Game must have a title"@),
        user.email_verified && game.owner_id == user.id && spec_trim(game.title@).len() > 0
            && blank_code(game.game_screen_code) && blank_code(game.controller_screen_code) ==> (r matches Err(
            AppError::Unprocessable(c, m),
        ) && c@ == "INVALID_GAME"@ && m@ == "Game must have at least one non-empty canvas code"@),
        r is Ok <==> !publish_refused(*user, *game),
        r matches Ok(n) ==> n == (version_count + 1) as i32,
{
    match check_publish(user, game) {
        Ok(()) => {},
        Err(e) => return Err(e),
    }
    Ok((version_count + 1) as i32)
}

/// The game once its new version is published.
pub fn published(game: CatalogGame, version_id: u128) -> (g: CatalogGame)
    ensures
        g == (CatalogGame { status: g.status, published_version_id: Some(version_id), ..game }),
        g.status@ == "published"@,
        status_consistent(g),
{
    CatalogGame { status: String::from_str("published"), published_version_id: Some(version_id), ..game }
}

/// Archive a game: its creator, a moderator or an admin may; not when already archived.
pub fn plan_archive(game: CatalogGame, user: &UserRecord) -> (r: Result<CatalogGame, AppError>)
    ensures
        !spec_may_manage(game, *user) ==> (r matches Err(AppError::Forbidden(m)) && m@
            == "You are not authorized to archive this game"@),
        spec_may_manage(game, *user) && game.status@ == "archived"@ ==> (r matches Err(
            AppError::Unprocessable(c, m),
        ) && c@ == "ALREADY_ARCHIVED"@ && m@ == "Game is already archived"@),
        r is Ok <==> (spec_may_manage(game, *user) && game.status@ != "archived"@),
        r matches Ok(g) ==> g == (CatalogGame { status: g.status, ..game }) && g.status@ == "archived"@,
{
    if !may_manage(&game, user) {
        return Err(AppError::Forbidden(String::from_str("You are not authorized to archive this game")));
    }
    if str_eq(game.status.as_str(), "archived") {
        return Err(
            AppError::Unprocessable(
                String::from_str("ALREADY_ARCHIVED"),
                String::from_str("Game is already archived"),
            ),
        );
    }
    Ok(CatalogGame { status: String::from_str("archived"), ..game })
}

/// Restore an archived game (creator only): back to published when it has a published
/// version, otherwise to draft.
pub fn plan_unarchive(game: CatalogGame, user_id: u128) -> (r: Result<CatalogGame, AppError>)
    ensures
        game.owner_id != user_id ==> (r matches Err(AppError::Forbidden(m)) && m@
            == "You are not the creator of this game"@),
        game.owner_id == user_id && game.status@ != "archived"@ ==> (r matches Err(
            AppError::Unprocessable(c, m),
        ) && c@ == "NOT_ARCHIVED"@ && m@ == "Game is not currently archived"@),
        r is Ok <==> (game.owner_id == user_id && game.status@ == "archived"@),
        r matches Ok(g) ==> g == (CatalogGame { status: g.status, ..game }) && g.status@ == (if game.published_version_id is Some {
            "published"@
        } else {
            "draft"@
        }),
{
    if game.owner_id != user_id {
        return Err(AppError::Forbidden(String::from_str("You are not the creator of this game")));
    }
    if !str_eq(game.status.as_str(), "archived") {
        return Err(
            AppError::Unprocessable(
                String::from_str("NOT_ARCHIVED"),
                String::from_str("Game is not currently archived"),
            ),
        );
    }
    let new_status = if game.published_version_id.is_some() {
        String::from_str("published")
    } else {
        String::from_str("draft")
    };
    Ok(CatalogGame { status: new_status, ..game })
}

/// Archiving a game its creator then restores gives back the game as it was, when its
/// status agreed with its published version.
pub proof fn lemma_archive_unarchive_restores(game: CatalogGame, archived: CatalogGame, restored: CatalogGame)
    requires
        status_consistent(game),
        archived == (CatalogGame { status: archived.status, ..game }),
        archived.status@ == "archived"@,
        restored == (CatalogGame { status: restored.status, ..archived }),
        restored.status@ == (if archived.published_version_id is Some {
            "published"@
        } else {
            "draft"@
        }),
    ensures
        restored.status@ == game.status@,
        restored == (CatalogGame { status: restored.status, ..game }),
{
}

/// A published version's canvas codes.
#[derive(Debug, Clone)]
pub struct VersionCode {
    pub game_screen_code: Option<String>,
    pub controller_screen_code: Option<String>,
}

/// The fork of `source` owned by `user_id`: a private draft titled `"{title} (Fork)"`
/// with the published version's code. Needs a published version, which must be found.
pub fn plan_fork(source: &CatalogGame, user_id: u128, new_id: u128, version: Option<VersionCode>) -> (r:
    Result<CatalogGame, AppError>)
    ensures
        source.published_version_id is None ==> (r matches Err(AppError::Unprocessable(c, m)) && c@
            == "NO_PUBLISHED_VERSION"@ && m@ == "The source game has no published version"@),
        source.published_version_id is Some && version is None ==> (r matches Err(
            AppError::NotFound(m),
        ) && m@ == "Published version not found"@),
        r is Ok <==> (source.published_version_id is Some && version is Some),
        r matches Ok(g) ==> {
            &&& g.id == new_id && g.owner_id == user_id
            &&& g.title@ == source.title@ + " (Fork)"@
            &&& g.slug@ == spec_slug(source.title@ + " fork"@, new_id)
            &&& g.description == source.description && g.technology == source.technology
            &&& g.min_players == source.min_players && g.max_players == source.max_players
            &&& g.status@ == "draft"@ && g.visibility@ == "private"@
            &&& g.game_screen_code == version->0.game_screen_code
            &&& g.controller_screen_code == version->0.controller_screen_code
            &&& g.forked_from_id == Some(source.id)
            &&& g.published_version_id is None && g.thumbnail is None
        },
{
    if source.published_version_id.is_none() {
        return Err(
            AppError::Unprocessable(
                String::from_str("NO_PUBLISHED_VERSION"),
                String::from_str("The source game has no published version"),
            ),
        );
    }
    let v = match version {
        Some(v) => v,
        None => return Err(AppError::NotFound(String::from_str("Published version not found"))),
    };
    let mut slug_title = source.title.clone();
    slug_title.append(" fork");
    let mut title = source.title.clone();
    title.append(" (Fork)");
    Ok(
        CatalogGame {
            id: new_id,
            owner_id: user_id,
            title,
            slug: unique_slug(slug_title.as_str(), new_id),
            description: source.description.clone(),
            thumbnail: None,
            technology: source.technology.clone(),
            status: String::from_str("draft"),
            visibility: String::from_str("private"),
            min_players: source.min_players,
            max_players: source.max_players,
            published_version_id: None,
            game_screen_code: v.game_screen_code,
            controller_screen_code: v.controller_screen_code,
            forked_from_id: Some(source.id),
        },
    )
}

/// Largest asset: 10 MB.
pub const MAX_ASSET_SIZE: usize = 10485760;

/// Content types an asset may have.
pub open spec fn allowed_asset_types() -> Seq<Seq<char>> {
    seq![
        "image/png"@, "image/jpeg"@, "image/svg+xml"@, "image/gif"@, "audio/mpeg"@, "audio/wav"@,
        "audio/ogg"@, "font/ttf"@, "font/woff2"@,
    ]
}

/// Checks an uploaded asset: a non-empty file of at most 10 MB of an allowed type.
pub fn check_asset(data_len: usize, file_type: &str) -> (r: Result<(), AppError>)
    ensures
        data_len == 0 ==> (r matches Err(AppError::BadRequest(m)) && m@ == "No file provided"@),
        data_len > MAX_ASSET_SIZE ==> (r matches Err(AppError::PayloadTooLarge(m)) && m@
            == "File exceeds the 10 MB size limit"@),
        0 < data_len <= MAX_ASSET_SIZE && !allowed_asset_types().contains(file_type@) ==> (r matches Err(
            AppError::BadRequest(m),
        ) && m@ == "Unsupported file type: "@ + file_type@),
        r is Ok <==> (0 < data_len <= MAX_ASSET_SIZE && allowed_asset_types().contains(file_type@)),
{
    if data_len == 0 {
        return Err(AppError::BadRequest(String::from_str("No file provided")));
    }
    if data_len > MAX_ASSET_SIZE {
        return Err(AppError::PayloadTooLarge(String::from_str("File exceeds the 10 MB size limit")));
    }
    let allowed = str_eq(file_type, "image/png") || str_eq(file_type, "image/jpeg") || str_eq(
        file_type,
        "image/svg+xml",
    ) || str_eq(file_type, "image/gif") || str_eq(file_type, "audio/mpeg") || str_eq(
        file_type,
        "audio/wav",
    ) || str_eq(file_type, "audio/ogg") || str_eq(file_type, "font/ttf") || str_eq(
        file_type,
        "font/woff2",
    );
    proof {
        if allowed_asset_types().contains(file_type@) {
            let i = choose|i: int| 0 <= i < allowed_asset_types().len() && allowed_asset_types()[i] == file_type@;
            assert(allowed);
        }
        if allowed {
            assert(allowed_asset_types().contains(file_type@));
        }
    }
    if !allowed {
        let mut m = String::from_str("Unsupported file type: ");
        m.append(file_type);
        return Err(AppError::BadRequest(m));
    }
    Ok(())
}

/// Where an asset is stored: `assets/{game id}/{file name}`.
pub fn asset_storage_url(game_id: u128, file_name: &str) -> (r: String)
    ensures
        r@ == "assets/"@ + spec_uuid_text(game_id) + "/"@ + file_name@,
{
    let mut r = String::from_str("assets/");
    append_uuid(&mut r, game_id);
    r.append("/");
    r.append(file_name);
    r
}

/// Recorded size of an asset: its length, or `i32::MAX` when it does not fit.
pub fn asset_file_size(data_len: usize) -> (r: i32)
    ensures
        data_len <= i32::MAX ==> r == data_len,
        data_len > i32::MAX ==> r == i32::MAX,
{
    if data_len <= 2147483647 {
        data_len as i32
    } else {
        2147483647
    }
}

/// Setting tags needs every requested tag to exist.
pub fn check_tags_found(found: usize, requested: usize) -> (r: Result<(), AppError>)
    ensures
        r is Ok <==> found == requested,
        r matches Err(e) ==> (e matches AppError::BadRequest(m) && m@ == "One or more tag IDs do not exist"@),
{
    if found != requested {
        return Err(AppError::BadRequest(String::from_str("One or more tag IDs do not exist")));
    }
    Ok(())
}

}
