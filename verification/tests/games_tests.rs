use chess_games::games::{
    abandon_game_reply, authenticated_player, begin_completion, complete_game_reply, create_game_reply,
    effective_k_factor, game_status_label, get_game_reply, import_game_reply,
    invalid_result_reply, join_game_reply, joining_player, list_games_reply, list_limit,
    make_move_reply, parse_result_side, parse_status_filter, rating_read, ratings_unavailable_reply,
    game_listing, game_listings, CompleteGameResponse, GameListing, GameRecord, ImportGameResponse, ImportOutcome, Reply, ReplyBody, ValidatedGame,
};
use chess_games::model::{ApiError, GameStatus, ResultSide};
use uuid::Uuid;

fn says(status: u16, text: &str) -> Reply<&'static str> {
    Reply { status, body: ReplyBody::Message(text.to_string()) }
}

fn game_reply(status: u16, text: &str, game: &'static str) -> Reply<&'static str> {
    Reply { status, body: ReplyBody::Game(text.to_string(), game) }
}

fn not_found() -> ApiError {
    ApiError::NotFound("no such game".to_string())
}

fn internal() -> ApiError {
    ApiError::Internal("database down".to_string())
}

#[test]
fn requests_without_a_player_are_unauthorized() {
    let id = Uuid::from_u128(11);
    assert_eq!(authenticated_player::<&str>(Some(id)), Ok(id));
    assert_eq!(authenticated_player::<&str>(None), Err(says(401, "Authentication required")));
}

#[test]
fn create_game_answers() {
    assert_eq!(create_game_reply(Ok("g")), game_reply(201, "Game created successfully", "g"));
    assert_eq!(create_game_reply::<&str>(Err(not_found())), says(500, "Failed to create game"));
}

#[test]
fn get_game_answers() {
    assert_eq!(get_game_reply(Ok("g")), game_reply(200, "Game found", "g"));
    assert_eq!(get_game_reply::<&str>(Err(not_found())), says(404, "Game not found"));
    assert_eq!(get_game_reply::<&str>(Err(ApiError::Forbidden("x".to_string()))), says(500, "Failed to fetch game"));
}

#[test]
fn make_move_answers() {
    assert_eq!(make_move_reply(Ok("g")), game_reply(200, "Move made successfully", "g"));
    assert_eq!(make_move_reply::<&str>(Err(not_found())), says(404, "Game not found"));
    assert_eq!(
        make_move_reply::<&str>(Err(ApiError::BadRequest("Illegal move e2e5".to_string()))),
        says(400, "Illegal move e2e5")
    );
    assert_eq!(
        make_move_reply::<&str>(Err(ApiError::Forbidden("turn".to_string()))),
        says(403, "It is not your turn")
    );
    assert_eq!(make_move_reply::<&str>(Err(internal())), says(500, "Failed to apply move"));
}

#[test]
fn list_games_reads_its_query() {
    assert_eq!(parse_status_filter(Some("waiting")), Some(GameStatus::Waiting));
    assert_eq!(parse_status_filter(Some("in_progress")), Some(GameStatus::InProgress));
    assert_eq!(parse_status_filter(Some("completed")), Some(GameStatus::Completed));
    assert_eq!(parse_status_filter(Some("aborted")), Some(GameStatus::Aborted));
    assert_eq!(parse_status_filter(Some("finished")), None);
    assert_eq!(parse_status_filter(Some("Waiting")), None);
    assert_eq!(parse_status_filter(None), None);
    assert_eq!(list_limit(None), 10);
    assert_eq!(list_limit(Some(25)), 25);
}

#[test]
fn listed_games_show_their_status() {
    assert_eq!(game_status_label(Some(ResultSide::Ongoing)), "in_progress");
    assert_eq!(game_status_label(Some(ResultSide::WhiteWins)), "completed");
    assert_eq!(game_status_label(Some(ResultSide::Abandoned)), "completed");
    assert_eq!(game_status_label(None), "waiting");
    for result in [None, Some(ResultSide::Ongoing), Some(ResultSide::Draw)] {
        assert!(parse_status_filter(Some(game_status_label(result))).is_some());
    }
}

#[test]
fn list_games_answers() {
    assert_eq!(
        list_games_reply(Ok("page")),
        Reply { status: 200, body: ReplyBody::Data("Games found".to_string(), "page") }
    );
    assert_eq!(list_games_reply::<&str>(Err(internal())), says(500, "Failed to list games"));
}

#[test]
fn join_game_prefers_the_authenticated_player() {
    let authed = Uuid::from_u128(1);
    let named = Uuid::from_u128(2);
    assert_eq!(joining_player(Some(authed), named), authed);
    assert_eq!(joining_player(None, named), named);
}

#[test]
fn join_game_answers() {
    assert_eq!(join_game_reply(Ok("g")), game_reply(200, "Joined game successfully", "g"));
    assert_eq!(join_game_reply::<&str>(Err(not_found())), says(404, "Game not found"));
    assert_eq!(
        join_game_reply::<&str>(Err(ApiError::BadRequest("Game is full".to_string()))),
        says(400, "Game is full")
    );
    assert_eq!(join_game_reply::<&str>(Err(ApiError::Forbidden("f".to_string()))), says(500, "Failed to join game"));
}

#[test]
fn abandon_game_answers() {
    assert_eq!(
        abandon_game_reply::<&str, ()>(Ok(())),
        Reply { status: 200, body: ReplyBody::Done("Game abandoned successfully".to_string()) }
    );
    assert_eq!(abandon_game_reply::<&str, ()>(Err(not_found())), says(404, "Game not found"));
    assert_eq!(
        abandon_game_reply::<&str, ()>(Err(ApiError::Forbidden("f".to_string()))),
        says(403, "You are not a participant in this game")
    );
    assert_eq!(abandon_game_reply::<&str, ()>(Err(internal())), says(500, "Failed to abandon game"));
}

fn validated() -> ValidatedGame {
    ValidatedGame {
        white: "Carlsen".to_string(),
        black: "Nepomniachtchi".to_string(),
        result: "1-0".to_string(),
        ply_count: 271,
        final_fen: "8/8/8/8/8/5k2/8/4K3 w - - 0 136".to_string(),
    }
}

#[test]
fn import_of_unparsable_text() {
    let (status, body) = import_game_reply(ImportOutcome::Unparsable { error: "bad tag".to_string() });
    assert_eq!(status, 400);
    assert_eq!(
        body,
        ImportGameResponse {
            success: false,
            game_id: None,
            white_player: String::new(),
            black_player: String::new(),
            result: String::new(),
            move_count: 0,
            final_fen: None,
            error: Some("bad tag".to_string()),
        }
    );
}

#[test]
fn import_with_illegal_moves() {
    let (status, body) = import_game_reply(ImportOutcome::IllegalMoves {
        white: "A".to_string(),
        black: "B".to_string(),
        error: "illegal move 3. Kxe8".to_string(),
    });
    assert_eq!(status, 422);
    assert_eq!(body.white_player, "A");
    assert_eq!(body.black_player, "B");
    assert_eq!(body.result, "");
    assert_eq!(body.move_count, 0);
    assert_eq!(body.final_fen, None);
    assert!(!body.success);
    assert_eq!(body.error, Some("illegal move 3. Kxe8".to_string()));
}

#[test]
fn import_stored() {
    let id = Uuid::from_u128(99);
    let (status, body) = import_game_reply(ImportOutcome::Stored { game_id: id, game: validated() });
    assert_eq!(status, 201);
    assert_eq!(
        body,
        ImportGameResponse {
            success: true,
            game_id: Some(id),
            white_player: "Carlsen".to_string(),
            black_player: "Nepomniachtchi".to_string(),
            result: "1-0".to_string(),
            move_count: 271,
            final_fen: Some("8/8/8/8/8/5k2/8/4K3 w - - 0 136".to_string()),
            error: None,
        }
    );
}

#[test]
fn import_not_stored() {
    let (status, body) = import_game_reply(ImportOutcome::StoreFailed {
        game: validated(),
        error: "duplicate key".to_string(),
    });
    assert_eq!(status, 500);
    assert!(!body.success);
    assert_eq!(body.game_id, None);
    assert_eq!(body.result, "1-0");
    assert_eq!(body.move_count, 271);
    assert_eq!(body.final_fen, Some("8/8/8/8/8/5k2/8/4K3 w - - 0 136".to_string()));
    assert_eq!(body.error, Some("duplicate key".to_string()));
}

#[test]
fn completion_reads_its_request() {
    assert_eq!(parse_result_side("white_wins"), Some(ResultSide::WhiteWins));
    assert_eq!(parse_result_side("black_wins"), Some(ResultSide::BlackWins));
    assert_eq!(parse_result_side("draw"), Some(ResultSide::Draw));
    assert_eq!(parse_result_side("abandoned"), Some(ResultSide::Abandoned));
    assert_eq!(parse_result_side("ongoing"), None);
    assert_eq!(parse_result_side("white_win"), None);
    assert_eq!(
        invalid_result_reply::<&str>(),
        says(400, "Invalid result. Must be one of: white_wins, black_wins, draw, abandoned")
    );
    assert_eq!(effective_k_factor(None), 32);
    assert_eq!(effective_k_factor(Some(16)), 16);
    assert_eq!(ratings_unavailable_reply::<&str>(), says(500, "Failed to get player ratings"));
}

#[test]
fn completion_reports_rating_changes() {
    let id = Uuid::from_u128(5);
    let (status, body) = complete_game_reply(id, "white_wins".to_string(), 1500, 1520, Ok((1516, 1504)));
    assert_eq!(status, 200);
    assert_eq!(
        body,
        CompleteGameResponse {
            success: true,
            game_id: id,
            result: "white_wins".to_string(),
            white_new_rating: 1516,
            black_new_rating: 1504,
            rating_change_white: 16,
            rating_change_black: -16,
            error: None,
        }
    );
}

#[test]
fn failed_completion_keeps_the_ratings() {
    let id = Uuid::from_u128(5);
    let kept = |error: &str| CompleteGameResponse {
        success: false,
        game_id: id,
        result: "draw".to_string(),
        white_new_rating: 1500,
        black_new_rating: 1520,
        rating_change_white: 0,
        rating_change_black: 0,
        error: Some(error.to_string()),
    };
    assert_eq!(complete_game_reply(id, "draw".to_string(), 1500, 1520, Err(not_found())), (404, kept("Game not found")));
    assert_eq!(
        complete_game_reply(id, "draw".to_string(), 1500, 1520, Err(ApiError::BadRequest("Game already completed".to_string()))),
        (400, kept("Game already completed"))
    );
    assert_eq!(
        complete_game_reply(id, "draw".to_string(), 1500, 1520, Err(internal())),
        (500, kept("Failed to complete game and update ratings"))
    );
}

#[test]
fn completion_checks_the_player_before_the_result() {
    let id = Uuid::from_u128(3);
    assert_eq!(begin_completion::<&str>(None, "nonsense", None), Err(says(401, "Authentication required")));
    assert_eq!(
        begin_completion::<&str>(Some(id), "nonsense", Some(10)),
        Err(says(400, "Invalid result. Must be one of: white_wins, black_wins, draw, abandoned"))
    );
    assert_eq!(begin_completion::<&str>(Some(id), "draw", None), Ok((ResultSide::Draw, 32)));
    assert_eq!(begin_completion::<&str>(Some(id), "black_wins", Some(40)), Ok((ResultSide::BlackWins, 40)));
}

#[test]
fn a_rating_that_cannot_be_read_ends_the_completion() {
    assert_eq!(rating_read::<&str>(Ok(1487)), Ok(1487));
    assert_eq!(rating_read::<&str>(Err(internal())), Err(says(500, "Failed to get player ratings")));
    assert_eq!(rating_read::<&str>(Err(not_found())), Err(says(500, "Failed to get player ratings")));
}

#[test]
fn every_completion_answer_is_consistent() {
    let id = Uuid::from_u128(8);
    let outcomes = vec![
        Ok((1510, 1490)),
        Err(not_found()),
        Err(ApiError::BadRequest("done".to_string())),
        Err(ApiError::Forbidden("no".to_string())),
        Err(internal()),
    ];
    for outcome in outcomes {
        let (status, body) = complete_game_reply(id, "draw".to_string(), 1500, 1500, outcome);
        assert_eq!(body.success, status == 200);
        assert_eq!(body.success, body.error.is_none());
        if !body.success {
            assert_eq!((body.white_new_rating, body.black_new_rating), (1500, 1500));
            assert_eq!((body.rating_change_white, body.rating_change_black), (0, 0));
        }
    }
}

fn record(n: u128, result: Option<ResultSide>) -> GameRecord<u32> {
    GameRecord {
        id: Uuid::from_u128(n),
        white_player: Some(Uuid::from_u128(100 + n)),
        black_player: None,
        result,
        fen: format!("fen {n}"),
        created_at: 10,
        started_at: 20,
    }
}

#[test]
fn a_listed_game_shows_its_fields_and_status() {
    assert_eq!(
        game_listing(&record(1, Some(ResultSide::Ongoing))),
        GameListing {
            id: Uuid::from_u128(1),
            white_player_id: Some(Uuid::from_u128(101)),
            black_player_id: None,
            status: "in_progress".to_string(),
            result: Some(ResultSide::Ongoing),
            current_fen: "fen 1".to_string(),
            created_at: 10,
            started_at: 20,
        }
    );
    let games = vec![record(1, None), record(2, Some(ResultSide::Draw)), record(3, Some(ResultSide::Ongoing))];
    let listed = game_listings(&games);
    let statuses: Vec<&str> = listed.iter().map(|l| l.status.as_str()).collect();
    assert_eq!(statuses, vec!["waiting", "completed", "in_progress"]);
    assert_eq!(listed.iter().map(|l| l.id).collect::<Vec<_>>(), games.iter().map(|g| g.id).collect::<Vec<_>>());
    assert!(game_listings::<u32>(&Vec::new()).is_empty());
}
