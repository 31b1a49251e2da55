use vstd::prelude::*;
use vstd::string::*;

use crate::model::{ApiError, GameStatus, ResultSide};
use crate::text::str_eq;

verus! {

/// The body of a reply to an HTTP request on games.
#[derive(Debug, PartialEq, Eq)]
pub enum ReplyBody<T> {
    /// `{"message": m}`
    Message(String),
    /// `{"message": m, "data": {"game": g}}`
    Game(String, T),
    /// `{"message": m, "data": d}`
    Data(String, T),
    /// `{"message": m, "data": {}}`
    Done(String),
}

/// A reply: its HTTP status code and its body.
#[derive(Debug, PartialEq, Eq)]
pub struct Reply<T> {
    pub status: u16,
    pub body: ReplyBody<T>,
}

/// The reply is `status` with the bare message `msg`.
pub open spec fn says<T>(r: Reply<T>, status: u16, msg: Seq<char>) -> bool {
    &&& r.status == status
    &&& r.body matches ReplyBody::Message(m) && m@ == msg
}

/// The reply is `status` with the message `msg` and the game `game`.
pub open spec fn carries_game<T>(r: Reply<T>, status: u16, msg: Seq<char>, game: T) -> bool {
    &&& r.status == status
    &&& r.body matches ReplyBody::Game(m, g) && m@ == msg && g == game
}

/// The reply is `status` with the message `msg` and the data `data`.
pub open spec fn carries_data<T>(r: Reply<T>, status: u16, msg: Seq<char>, data: T) -> bool {
    &&& r.status == status
    &&& r.body matches ReplyBody::Data(m, d) && m@ == msg && d == data
}

/// The reply is `status` with the message `msg` and empty data.
pub open spec fn is_done<T>(r: Reply<T>, status: u16, msg: Seq<char>) -> bool {
    &&& r.status == status
    &&& r.body matches ReplyBody::Done(m) && m@ == msg
}

/// Each way of describing a reply fixes its status, the kind of its body,
/// its message and what it carries.
pub proof fn law_reply_descriptions_fix_the_reply<T>(r: Reply<T>, status: u16, msg: Seq<char>, x: T)
    ensures
        says(r, status, msg) ==> r.status == status && (r.body matches ReplyBody::Message(m)
            && m@ == msg),
        carries_game(r, status, msg, x) ==> r.status == status && (r.body matches ReplyBody::Game(
            m,
            g,
        ) && m@ == msg && g == x),
        carries_data(r, status, msg, x) ==> r.status == status && (r.body matches ReplyBody::Data(
            m,
            d,
        ) && m@ == msg && d == x),
        is_done(r, status, msg) ==> r.status == status && (r.body matches ReplyBody::Done(m) && m@
            == msg),
{
}

fn message<T>(status: u16, text: &str) -> (r: Reply<T>)
    ensures
        says(r, status, text@),
{
    Reply { status, body: ReplyBody::Message(String::from_str(text)) }
}

/// The player a request was authenticated as; without one, the request is
/// answered 401.
pub fn authenticated_player<T>(authenticated: Option<uuid::Uuid>) -> (r: Result<uuid::Uuid, Reply<T>>)
    ensures
        match authenticated {
            Some(id) => r == Ok::<uuid::Uuid, Reply<T>>(id),
            None => r matches Err(reply) && says(reply, 401, "Authentication required"@),
        },
{
    match authenticated {
        Some(id) => Ok(id),
        None => Err(message(401, "Authentication required")),
    }
}

/// The answer to `POST /v1/games` once the service has tried to create it.
pub fn create_game_reply<T>(outcome: Result<T, ApiError>) -> (r: Reply<T>)
    ensures
        match outcome {
            Ok(g) => carries_game(r, 201, "Game created successfully"@, g),
            Err(_) => says(r, 500, "Failed to create game"@),
        },
{
    match outcome {
        Ok(g) => Reply {
            status: 201,
            body: ReplyBody::Game(String::from_str("Game created successfully"), g),
        },
        Err(_) => message(500, "Failed to create game"),
    }
}

/// The answer to `GET /v1/games/{id}` once the service has looked it up.
pub fn get_game_reply<T>(outcome: Result<T, ApiError>) -> (r: Reply<T>)
    ensures
        match outcome {
            Ok(g) => carries_game(r, 200, "Game found"@, g),
            Err(ApiError::NotFound(_)) => says(r, 404, "Game not found"@),
            Err(_) => says(r, 500, "Failed to fetch game"@),
        },
{
    match outcome {
        Ok(g) => Reply { status: 200, body: ReplyBody::Game(String::from_str("Game found"), g) },
        Err(ApiError::NotFound(_)) => message(404, "Game not found"),
        Err(_) => message(500, "Failed to fetch game"),
    }
}

/// The answer to `PUT /v1/games/{id}/move` once the service has tried the
/// move.
pub fn make_move_reply<T>(outcome: Result<T, ApiError>) -> (r: Reply<T>)
    ensures
        match outcome {
            Ok(g) => carries_game(r, 200, "Move made successfully"@, g),
            Err(ApiError::NotFound(_)) => says(r, 404, "Game not found"@),
            Err(ApiError::BadRequest(msg)) => says(r, 400, msg@),
            Err(ApiError::Forbidden(_)) => says(r, 403, "It is not your turn"@),
            Err(_) => says(r, 500, "Failed to apply move"@),
        },
{
    match outcome {
        Ok(g) => Reply {
            status: 200,
            body: ReplyBody::Game(String::from_str("Move made successfully"), g),
        },
        Err(ApiError::NotFound(_)) => message(404, "Game not found"),
        Err(ApiError::BadRequest(msg)) => Reply { status: 400, body: ReplyBody::Message(msg) },
        Err(ApiError::Forbidden(_)) => message(403, "It is not your turn"),
        Err(_) => message(500, "Failed to apply move"),
    }
}


/// The status a `status` query parameter selects, if it names one.
pub open spec fn status_filter(s: Seq<char>) -> Option<GameStatus> {
    if s == "waiting"@ {
        Some(GameStatus::Waiting)
    } else if s == "in_progress"@ {
        Some(GameStatus::InProgress)
    } else if s == "completed"@ {
        Some(GameStatus::Completed)
    } else if s == "aborted"@ {
        Some(GameStatus::Aborted)
    } else {
        None
    }
}

/// The status filter of `GET /v1/games`; an unknown status filters nothing.
pub fn parse_status_filter(status: Option<&str>) -> (r: Option<GameStatus>)
    ensures
        r == match status {
            Some(s) => status_filter(s@),
            None => None,
        },
{
    match status {
        None => None,
        Some(s) => {
            if str_eq(s, "waiting") {
                Some(GameStatus::Waiting)
            } else if str_eq(s, "in_progress") {
                Some(GameStatus::InProgress)
            } else if str_eq(s, "completed") {
                Some(GameStatus::Completed)
            } else if str_eq(s, "aborted") {
                Some(GameStatus::Aborted)
            } else {
                None
            }
        },
    }
}

/// The page size of `GET /v1/games`: ten unless the query names one.
pub fn list_limit(limit: Option<u64>) -> (r: u64)
    ensures
        r == match limit {
            Some(l) => l,
            None => 10,
        },
{
    match limit {
        Some(l) => l,
        None => 10,
    }
}

/// The status shown for a listed game: a game still being played is in
/// progress, one with any other result is completed, one without a result
/// is waiting for its second player.
pub open spec fn status_label(result: Option<ResultSide>) -> Seq<char> {
    match result {
        Some(ResultSide::Ongoing) => "in_progress"@,
        Some(_) => "completed"@,
        None => "waiting"@,
    }
}

/// The status shown for a listed game with the given result.
pub fn game_status_label(result: Option<ResultSide>) -> (r: &'static str)
    ensures
        r@ == status_label(result),
{
    match result {
        Some(ResultSide::Ongoing) => "in_progress",
        Some(_) => "completed",
        None => "waiting",
    }
}

/// The status a listed game is shown with.
pub open spec fn listed_status(result: Option<ResultSide>) -> GameStatus {
    match result {
        Some(ResultSide::Ongoing) => GameStatus::InProgress,
        Some(_) => GameStatus::Completed,
        None => GameStatus::Waiting,
    }
}

/// The status shown for a listed game, given back as the `status` filter,
/// selects that game's status.
pub proof fn law_listed_status_filters_back(result: Option<ResultSide>)
    ensures
        status_filter(status_label(result)) == Some(listed_status(result)),
{
    reveal_strlit("waiting");
    reveal_strlit("in_progress");
    reveal_strlit("completed");
    assert("in_progress"@.len() != "waiting"@.len());
    assert("completed"@.len() != "waiting"@.len());
    assert("completed"@.len() != "in_progress"@.len());
}

/// A stored game, as a listing reads it; `D` is how its dates are kept.
#[derive(Debug, PartialEq, Eq)]
pub struct GameRecord<D> {
    pub id: uuid::Uuid,
    pub white_player: Option<uuid::Uuid>,
    pub black_player: Option<uuid::Uuid>,
    pub result: Option<ResultSide>,
    pub fen: String,
    pub created_at: D,
    pub started_at: D,
}

/// One entry of a game listing.
#[derive(Debug, PartialEq, Eq)]
pub struct GameListing<D> {
    pub id: uuid::Uuid,
    pub white_player_id: Option<uuid::Uuid>,
    pub black_player_id: Option<uuid::Uuid>,
    pub status: String,
    pub result: Option<ResultSide>,
    pub current_fen: String,
    pub created_at: D,
    pub started_at: D,
}

/// `l` lists the game `g`: its fields as stored, and the status its result
/// shows.
pub open spec fn lists<D>(g: GameRecord<D>, l: GameListing<D>) -> bool {
    &&& l.id == g.id
    &&& l.white_player_id == g.white_player
    &&& l.black_player_id == g.black_player
    &&& l.status@ == status_label(g.result)
    &&& l.result == g.result
    &&& l.current_fen@ == g.fen@
    &&& l.created_at == g.created_at
    &&& l.started_at == g.started_at
}

/// A listed game shows "in_progress" exactly while it is being played,
/// "waiting" while it has no result, and "completed" once it has any other
/// result; every other field is the stored one.
pub proof fn law_listing_shows_the_game<D>(g: GameRecord<D>, l: GameListing<D>)
    requires
        lists(g, l),
    ensures
        g.result == Some(ResultSide::Ongoing) ==> l.status@ == "in_progress"@,
        g.result is None ==> l.status@ == "waiting"@,
        g.result is Some && g.result != Some(ResultSide::Ongoing) ==> l.status@ == "completed"@,
        l.id == g.id,
        l.white_player_id == g.white_player,
        l.black_player_id == g.black_player,
        l.result == g.result,
        l.current_fen@ == g.fen@,
        l.created_at == g.created_at,
        l.started_at == g.started_at,
{
}

/// The listing entry of a stored game.
pub fn game_listing<D: Copy>(g: &GameRecord<D>) -> (l: GameListing<D>)
    ensures
        lists(*g, l),
{
    GameListing {
        id: g.id,
        white_player_id: g.white_player,
        black_player_id: g.black_player,
        status: String::from_str(game_status_label(g.result)),
        result: g.result,
        current_fen: g.fen.clone(),
        created_at: g.created_at,
        started_at: g.started_at,
    }
}

/// The listing entries of stored games, in their order.
pub fn game_listings<D: Copy>(games: &Vec<GameRecord<D>>) -> (ls: Vec<GameListing<D>>)
    ensures
        ls.len() == games.len(),
        forall|i: int| 0 <= i < games.len() ==> lists(#[trigger] games@[i], ls@[i]),
{
    let mut ls: Vec<GameListing<D>> = Vec::new();
    let mut i: usize = 0;
    while i < games.len()
        invariant
            i <= games.len(),
            ls.len() == i,
            forall|j: int| 0 <= j < i ==> lists(#[trigger] games@[j], ls@[j]),
        decreases games.len() - i,
    {
        ls.push(game_listing(&games[i]));
        i = i + 1;
    }
    ls
}

/// The answer to `GET /v1/games` once the service has listed the games.
pub fn list_games_reply<T>(outcome: Result<T, ApiError>) -> (r: Reply<T>)
    ensures
        match outcome {
            Ok(d) => carries_data(r, 200, "Games found"@, d),
            Err(_) => says(r, 500, "Failed to list games"@),
        },
{
    match outcome {
        Ok(d) => Reply { status: 200, body: ReplyBody::Data(String::from_str("Games found"), d) },
        Err(_) => message(500, "Failed to list games"),
    }
}

/// The player who joins: the authenticated one, else the one the request
/// body names.
pub fn joining_player(authenticated: Option<uuid::Uuid>, named: uuid::Uuid) -> (p: uuid::Uuid)
    ensures
        p == match authenticated {
            Some(id) => id,
            None => named,
        },
{
    match authenticated {
        Some(id) => id,
        None => named,
    }
}

/// The answer to `POST /v1/games/{id}/join` once the service has tried to
/// seat the player.
pub fn join_game_reply<T>(outcome: Result<T, ApiError>) -> (r: Reply<T>)
    ensures
        match outcome {
            Ok(g) => carries_game(r, 200, "Joined game successfully"@, g),
            Err(ApiError::NotFound(_)) => says(r, 404, "Game not found"@),
            Err(ApiError::BadRequest(msg)) => says(r, 400, msg@),
            Err(_) => says(r, 500, "Failed to join game"@),
        },
{
    match outcome {
        Ok(g) => Reply {
            status: 200,
            body: ReplyBody::Game(String::from_str("Joined game successfully"), g),
        },
        Err(ApiError::NotFound(_)) => message(404, "Game not found"),
        Err(ApiError::BadRequest(msg)) => Reply { status: 400, body: ReplyBody::Message(msg) },
        Err(_) => message(500, "Failed to join game"),
    }
}

/// The answer to `DELETE /v1/games/{id}` once the service has tried to
/// abandon the game.
pub fn abandon_game_reply<T, U>(outcome: Result<U, ApiError>) -> (r: Reply<T>)
    ensures
        match outcome {
            Ok(_) => is_done(r, 200, "Game abandoned successfully"@),
            Err(ApiError::NotFound(_)) => says(r, 404, "Game not found"@),
            Err(ApiError::Forbidden(_)) => says(r, 403, "You are not a participant in this game"@),
            Err(_) => says(r, 500, "Failed to abandon game"@),
        },
{
    match outcome {
        Ok(_) => Reply {
            status: 200,
            body: ReplyBody::Done(String::from_str("Game abandoned successfully")),
        },
        Err(ApiError::NotFound(_)) => message(404, "Game not found"),
        Err(ApiError::Forbidden(_)) => message(403, "You are not a participant in this game"),
        Err(_) => message(500, "Failed to abandon game"),
    }
}


/// What is known of an imported game once all its moves were found legal.
#[derive(Debug, Clone, PartialEq, Eq)]
pub struct ValidatedGame {
    pub white: String,
    pub black: String,
    /// The result in PGN notation, such as `1-0`.
    pub result: String,
    pub ply_count: u32,
    pub final_fen: String,
}

/// How far an import got.
#[derive(Debug, PartialEq, Eq)]
pub enum ImportOutcome {
    /// The PGN text could not be parsed.
    Unparsable { error: String },
    /// The PGN text was parsed, but a move is illegal.
    IllegalMoves { white: String, black: String, error: String },
    /// The game was validated and stored under `game_id`.
    Stored { game_id: uuid::Uuid, game: ValidatedGame },
    /// The game was validated but storing it failed.
    StoreFailed { game: ValidatedGame, error: String },
}

/// The body of every answer to `POST /v1/games/import`.
#[derive(Debug, PartialEq, Eq)]
pub struct ImportGameResponse {
    pub success: bool,
    pub game_id: Option<uuid::Uuid>,
    pub white_player: String,
    pub black_player: String,
    pub result: String,
    pub move_count: u32,
    pub final_fen: Option<String>,
    pub error: Option<String>,
}

/// The response fields that describe a validated game.
pub open spec fn describes(r: ImportGameResponse, game: ValidatedGame) -> bool {
    &&& r.white_player == game.white
    &&& r.black_player == game.black
    &&& r.result == game.result
    &&& r.move_count == game.ply_count
    &&& r.final_fen == Some(game.final_fen)
}

/// The answer to `POST /v1/games/import`, its status and its body, for each
/// stage the import reached.
pub fn import_game_reply(outcome: ImportOutcome) -> (r: (u16, ImportGameResponse))
    ensures
        r.1.success <==> outcome is Stored,
        r.1.game_id is Some <==> outcome is Stored,
        match outcome {
            ImportOutcome::Unparsable { error } => {
                &&& r.0 == 400
                &&& r.1.white_player@ == Seq::<char>::empty()
                &&& r.1.black_player@ == Seq::<char>::empty()
                &&& r.1.result@ == Seq::<char>::empty()
                &&& r.1.move_count == 0
                &&& r.1.final_fen is None
                &&& r.1.error == Some(error)
            },
            ImportOutcome::IllegalMoves { white, black, error } => {
                &&& r.0 == 422
                &&& r.1.white_player == white
                &&& r.1.black_player == black
                &&& r.1.result@ == Seq::<char>::empty()
                &&& r.1.move_count == 0
                &&& r.1.final_fen is None
                &&& r.1.error == Some(error)
            },
            ImportOutcome::Stored { game_id, game } => {
                &&& r.0 == 201
                &&& r.1.game_id == Some(game_id)
                &&& describes(r.1, game)
                &&& r.1.error is None
            },
            ImportOutcome::StoreFailed { game, error } => {
                &&& r.0 == 500
                &&& describes(r.1, game)
                &&& r.1.error == Some(error)
            },
        },
{
    match outcome {
        ImportOutcome::Unparsable { error } => (
            400,
            ImportGameResponse {
                success: false,
                game_id: None,
                white_player: String::new(),
                black_player: String::new(),
                result: String::new(),
                move_count: 0,
                final_fen: None,
                error: Some(error),
            },
        ),
        ImportOutcome::IllegalMoves { white, black, error } => (
            422,
            ImportGameResponse {
                success: false,
                game_id: None,
                white_player: white,
                black_player: black,
                result: String::new(),
                move_count: 0,
                final_fen: None,
                error: Some(error),
            },
        ),
        ImportOutcome::Stored { game_id, game } => (
            201,
            ImportGameResponse {
                success: true,
                game_id: Some(game_id),
                white_player: game.white,
                black_player: game.black,
                result: game.result,
                move_count: game.ply_count,
                final_fen: Some(game.final_fen),
                error: None,
            },
        ),
        ImportOutcome::StoreFailed { game, error } => (
            500,
            ImportGameResponse {
                success: false,
                game_id: None,
                white_player: game.white,
                black_player: game.black,
                result: game.result,
                move_count: game.ply_count,
                final_fen: Some(game.final_fen),
                error: Some(error),
            },
        ),
    }
}

/// The result a `result` field of `PUT /v1/games/{id}/complete` names.
pub open spec fn named_result(s: Seq<char>) -> Option<ResultSide> {
    if s == "white_wins"@ {
        Some(ResultSide::WhiteWins)
    } else if s == "black_wins"@ {
        Some(ResultSide::BlackWins)
    } else if s == "draw"@ {
        Some(ResultSide::Draw)
    } else if s == "abandoned"@ {
        Some(ResultSide::Abandoned)
    } else {
        None
    }
}

/// The result a completion request names, if it names one.
pub fn parse_result_side(s: &str) -> (r: Option<ResultSide>)
    ensures
        r == named_result(s@),
{
    if str_eq(s, "white_wins") {
        Some(ResultSide::WhiteWins)
    } else if str_eq(s, "black_wins") {
        Some(ResultSide::BlackWins)
    } else if str_eq(s, "draw") {
        Some(ResultSide::Draw)
    } else if str_eq(s, "abandoned") {
        Some(ResultSide::Abandoned)
    } else {
        None
    }
}

/// A completion request can only end a game: it never names the ongoing
/// result, and the four names it accepts name four different results.
pub proof fn law_completion_names_final_results(s: Seq<char>, t: Seq<char>)
    ensures
        named_result(s) != Some(ResultSide::Ongoing),
        named_result(s) is Some && named_result(s) == named_result(t) ==> s == t,
{
}

/// The answer to a completion request whose result names none of the four
/// results.
pub fn invalid_result_reply<T>() -> (r: Reply<T>)
    ensures
        says(r, 400, "Invalid result. Must be one of: white_wins, black_wins, draw, abandoned"@),
{
    message(400, "Invalid result. Must be one of: white_wins, black_wins, draw, abandoned")
}

/// The K-factor of the rating update: the one requested, else 32.
pub fn effective_k_factor(requested: Option<i32>) -> (k: i32)
    ensures
        k == match requested {
            Some(v) => v,
            None => 32,
        },
{
    match requested {
        Some(v) => v,
        None => 32,
    }
}

/// The answer to a completion request when a player's current rating cannot
/// be read.
pub fn ratings_unavailable_reply<T>() -> (r: Reply<T>)
    ensures
        says(r, 500, "Failed to get player ratings"@),
{
    message(500, "Failed to get player ratings")
}

/// The step after reading one player's current rating for a completion:
/// go on with the rating read, or answer 500 and stop when it could not be
/// read. White's rating is read first, black's only once white's was.
pub fn rating_read<T>(lookup: Result<i32, ApiError>) -> (r: Result<i32, Reply<T>>)
    ensures
        match lookup {
            Ok(v) => r == Ok::<i32, Reply<T>>(v),
            Err(_) => r matches Err(reply) && says(reply, 500, "Failed to get player ratings"@),
        },
{
    match lookup {
        Ok(v) => Ok(v),
        Err(_) => Err(ratings_unavailable_reply()),
    }
}

/// The first decisions on `PUT /v1/games/{id}/complete`, before any rating
/// is read: the request must come from an authenticated player, then name
/// one of the four results; the K-factor defaults to 32.
pub fn begin_completion<T>(
    authenticated: Option<uuid::Uuid>,
    result: &str,
    requested_k: Option<i32>,
) -> (r: Result<(ResultSide, i32), Reply<T>>)
    ensures
        match (authenticated, named_result(result@)) {
            (None, _) => r matches Err(reply) && says(reply, 401, "Authentication required"@),
            (Some(_), None) => r matches Err(reply) && says(
                reply,
                400,
                "Invalid result. Must be one of: white_wins, black_wins, draw, abandoned"@,
            ),
            (Some(_), Some(side)) => r == Ok::<(ResultSide, i32), Reply<T>>(
                (
                    side,
                    match requested_k {
                        Some(v) => v,
                        None => 32i32,
                    },
                ),
            ),
        },
{
    if let Err(reply) = authenticated_player::<T>(authenticated) {
        return Err(reply);
    }
    match parse_result_side(result) {
        None => Err(invalid_result_reply()),
        Some(side) => Ok((side, effective_k_factor(requested_k))),
    }
}

/// The body of the answers to `PUT /v1/games/{id}/complete` once the
/// service was asked to complete the game.
#[derive(Debug, PartialEq, Eq)]
pub struct CompleteGameResponse {
    pub success: bool,
    pub game_id: uuid::Uuid,
    pub result: String,
    pub white_new_rating: i32,
    pub black_new_rating: i32,
    pub rating_change_white: i32,
    pub rating_change_black: i32,
    pub error: Option<String>,
}

/// Whether the rating changes of a completed game fit in an `i32`.
pub open spec fn changes_fit(outcome: Result<(i32, i32), ApiError>, white_old: i32, black_old: i32) -> bool {
    outcome matches Ok((w, b)) ==> {
        &&& i32::MIN <= w - white_old <= i32::MAX
        &&& i32::MIN <= b - black_old <= i32::MAX
    }
}

/// The response leaves the ratings as they were, with no change.
pub open spec fn ratings_kept(r: CompleteGameResponse, white_old: i32, black_old: i32) -> bool {
    &&& r.white_new_rating == white_old
    &&& r.black_new_rating == black_old
    &&& r.rating_change_white == 0
    &&& r.rating_change_black == 0
}

fn failed_completion(
    game_id: uuid::Uuid,
    result: String,
    white_old: i32,
    black_old: i32,
    error: String,
) -> (r: CompleteGameResponse)
    ensures
        !r.success,
        r.game_id == game_id,
        r.result == result,
        ratings_kept(r, white_old, black_old),
        r.error == Some(error),
{
    CompleteGameResponse {
        success: false,
        game_id,
        result,
        white_new_rating: white_old,
        black_new_rating: black_old,
        rating_change_white: 0,
        rating_change_black: 0,
        error: Some(error),
    }
}

/// `r` is the answer to a completion request for `game_id` naming `result`,
/// whose players' ratings stood at `white_old` and `black_old`, once the
/// service reported `outcome`.
pub open spec fn completion_answer(
    game_id: uuid::Uuid,
    result: String,
    white_old: i32,
    black_old: i32,
    outcome: Result<(i32, i32), ApiError>,
    r: (u16, CompleteGameResponse),
) -> bool {
    &&& r.1.game_id == game_id
    &&& r.1.result == result
    &&& (r.1.success <==> outcome is Ok)
    &&& match outcome {
        Ok((w, b)) => {
            &&& r.0 == 200
            &&& r.1.white_new_rating == w
            &&& r.1.black_new_rating == b
            &&& r.1.rating_change_white == w - white_old
            &&& r.1.rating_change_black == b - black_old
            &&& r.1.error is None
        },
        Err(ApiError::NotFound(_)) => {
            &&& r.0 == 404
            &&& ratings_kept(r.1, white_old, black_old)
            &&& r.1.error matches Some(e) && e@ == "Game not found"@
        },
        Err(ApiError::BadRequest(msg)) => {
            &&& r.0 == 400
            &&& ratings_kept(r.1, white_old, black_old)
            &&& r.1.error == Some(msg)
        },
        Err(_) => {
            &&& r.0 == 500
            &&& ratings_kept(r.1, white_old, black_old)
            &&& r.1.error matches Some(e) && e@ == "Failed to complete game and update ratings"@
        },
    }
}

/// The answer to `PUT /v1/games/{id}/complete` once the service was asked to
/// record `result` and update the ratings, which stood at `white_old` and
/// `black_old` before.
pub fn complete_game_reply(
    game_id: uuid::Uuid,
    result: String,
    white_old: i32,
    black_old: i32,
    outcome: Result<(i32, i32), ApiError>,
) -> (r: (u16, CompleteGameResponse))
    requires
        changes_fit(outcome, white_old, black_old),
    ensures
        completion_answer(game_id, result, white_old, black_old, outcome, r),
{
    match outcome {
        Ok((w, b)) => (
            200,
            CompleteGameResponse {
                success: true,
                game_id,
                result,
                white_new_rating: w,
                black_new_rating: b,
                rating_change_white: w - white_old,
                rating_change_black: b - black_old,
                error: None,
            },
        ),
        Err(ApiError::NotFound(_)) => (
            404,
            failed_completion(game_id, result, white_old, black_old, String::from_str("Game not found")),
        ),
        Err(ApiError::BadRequest(msg)) => (
            400,
            failed_completion(game_id, result, white_old, black_old, msg),
        ),
        Err(_) => (
            500,
            failed_completion(
                game_id,
                result,
                white_old,
                black_old,
                String::from_str("Failed to complete game and update ratings"),
            ),
        ),
    }
}


/// Every answer to a completion request succeeds exactly when it is a 200
/// and exactly when it carries no error; an answer that succeeds reports the
/// service's new ratings and, whatever the result, the change that takes
/// each old rating to its new one; an answer that does not succeed leaves
/// both ratings as they were, with no change.
pub proof fn law_completion_answer_consistent(
    game_id: uuid::Uuid,
    result: String,
    white_old: i32,
    black_old: i32,
    outcome: Result<(i32, i32), ApiError>,
    r: (u16, CompleteGameResponse),
)
    requires
        completion_answer(game_id, result, white_old, black_old, outcome, r),
    ensures
        r.1.success <==> r.0 == 200,
        r.1.success <==> r.1.error is None,
        !r.1.success ==> ratings_kept(r.1, white_old, black_old),
        r.1.success ==> r.1.white_new_rating == white_old + r.1.rating_change_white
            && r.1.black_new_rating == black_old + r.1.rating_change_black,
        outcome matches Ok((w, b)) ==> r.1.white_new_rating == w && r.1.black_new_rating == b,
        r.1.game_id == game_id && r.1.result == result,
{
}

} // verus!
