use crypto_tracker::coin::Coin;
use crypto_tracker::request::{request_url, tracked_coins};
use crypto_tracker::session::{Action, Event, Failure, Outcome, Phase, Session, POLL_MILLIS};

#[test]
fn request_names_the_tracked_assets() {
    assert_eq!(
        request_url(&tracked_coins()),
        "https://api.coingecko.com/api/v3/simple/price?ids=bitcoin,ethereum,cardano&vs_currencies=usd&include_24hr_change=true"
    );
}

#[test]
fn request_for_any_asset_set() {
    assert_eq!(
        request_url(&["dogecoin".to_string()]),
        "https://api.coingecko.com/api/v3/simple/price?ids=dogecoin&vs_currencies=usd&include_24hr_change=true"
    );
    assert_eq!(
        request_url(&[]),
        "https://api.coingecko.com/api/v3/simple/price?ids=&vs_currencies=usd&include_24hr_change=true"
    );
}

fn one_coin() -> Vec<Coin> {
    vec![Coin {
        id: "bitcoin".to_string(),
        name: "bitcoin".to_string(),
        symbol: "BITCOIN".to_string(),
        current_price: 1,
        price_change_24h: 1,
    }]
}

fn run(inputs: Vec<Event>) -> (usize, usize, Vec<Action>) {
    let mut session = Session::new();
    assert_eq!(session.start(), Action::Refresh);
    let mut actions = vec![session.handle(Event::Refreshed(one_coin()))];
    for e in inputs {
        actions.push(session.handle(e));
    }
    let draws = actions.iter().filter(|a| **a == Action::Draw).count();
    let releases = actions.iter().filter(|a| matches!(a, Action::Release(_))).count();
    (draws, releases, actions)
}

#[test]
fn quit_at_position_n_draws_n_times() {
    let (draws, releases, actions) = run(vec![
        Event::Idle,
        Event::Key('x'),
        Event::Idle,
        Event::Key('q'),
        Event::Key('q'),
        Event::Idle,
    ]);
    assert_eq!(draws, 4);
    assert_eq!(releases, 1);
    assert_eq!(actions[4], Action::Release(Outcome::Quit));
    assert_eq!(actions[5], Action::Stop);
}

#[test]
fn immediate_quit_draws_once() {
    let (draws, releases, _) = run(vec![Event::Key('q')]);
    assert_eq!(draws, 1);
    assert_eq!(releases, 1);
}

#[test]
fn startup_failure_releases_once_without_drawing() {
    let mut session = Session::new();
    let first = session.handle(Event::RefreshFailed(Failure::Transport));
    assert_eq!(first, Action::Release(Outcome::Failed(Failure::Transport)));
    assert_eq!(session.phase, Phase::Terminating);
    assert_eq!(session.handle(Event::Key('q')), Action::Stop);
    assert_eq!(session.handle(Event::Idle), Action::Stop);
}

#[test]
fn parse_failure_is_reported_as_such() {
    let mut session = Session::new();
    assert_eq!(
        session.handle(Event::RefreshFailed(Failure::Parse)),
        Action::Release(Outcome::Failed(Failure::Parse))
    );
}

#[test]
fn input_before_first_refresh_asks_for_refresh() {
    let mut session = Session::new();
    assert_eq!(session.handle(Event::Idle), Action::Refresh);
    assert_eq!(session.phase, Phase::Initializing);
}

#[test]
fn later_refresh_replaces_records_and_failure_keeps_them() {
    let mut session = Session::new();
    session.handle(Event::Refreshed(one_coin()));
    assert_eq!(session.coins().len(), 1);
    assert_eq!(session.handle(Event::RefreshFailed(Failure::Transport)), Action::Draw);
    assert_eq!(session.coins().len(), 1);
    assert_eq!(session.handle(Event::Refreshed(Vec::new())), Action::Draw);
    assert!(session.coins().is_empty());
    assert_eq!(session.phase, Phase::Running);
}

#[test]
fn poll_wait_is_a_tenth_of_a_second() {
    assert_eq!(POLL_MILLIS, 100);
}
