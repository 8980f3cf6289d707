use statehub::location::Location;
use statehub::reconcile::{
    missing_locations, plan_reconcile, ExtendAction, ExtendStep, LocationRecord, POLL_INTERVAL_SECS,
};
use statehub::v0::{
    AwsRegion, AzureRegion, State, StateLocationAws, StateLocationAzure, StateLocationStatus,
};

fn aws_entry(region: AwsRegion, status: StateLocationStatus) -> StateLocationAws {
    StateLocationAws {
        region,
        status,
        volumes: vec![],
        private_link_service: None,
    }
}

fn azure_entry(region: AzureRegion, status: StateLocationStatus) -> StateLocationAzure {
    StateLocationAzure {
        region,
        status,
        volumes: vec![],
        private_link_service: None,
    }
}

fn state_in(name: &str, locations: &[Location]) -> State {
    let mut state = State::new(name);
    for l in locations {
        match l {
            Location::Aws(r) => state
                .locations
                .aws
                .push(aws_entry(*r, StateLocationStatus::Ready)),
            Location::Azure(r) => state
                .locations
                .azure
                .push(azure_entry(*r, StateLocationStatus::Ready)),
        }
    }
    state
}

const USW2: Location = Location::Aws(AwsRegion::UsWest2);
const USE1: Location = Location::Aws(AwsRegion::UsEast1);
const EUS2: Location = Location::Azure(AzureRegion::EastUs2);

#[test]
fn missing_keeps_target_order() {
    let state = state_in("alfa", &[USE1]);
    let targets = vec![EUS2, USE1, USW2];
    assert_eq!(missing_locations(&state, &targets), vec![EUS2, USW2]);
    let targets = vec![USW2, USE1, EUS2];
    assert_eq!(missing_locations(&state, &targets), vec![USW2, EUS2]);
}

#[test]
fn missing_is_empty_once_extended() {
    let state = state_in("alfa", &[USE1]);
    let targets = vec![USW2, USE1, EUS2];
    let missing = missing_locations(&state, &targets);
    assert!(missing.iter().all(|l| targets.contains(l)));
    let mut all = vec![USE1];
    all.extend(missing.iter().copied());
    let extended = state_in("alfa", &all);
    assert!(missing_locations(&extended, &targets).is_empty());
}

#[test]
fn missing_of_no_targets_is_empty() {
    let state = state_in("alfa", &[]);
    assert!(missing_locations(&state, &vec![]).is_empty());
}

#[test]
fn availability_ignores_status() {
    let mut state = State::new("alfa");
    state
        .locations
        .aws
        .push(aws_entry(AwsRegion::UsWest2, StateLocationStatus::Error));
    state
        .locations
        .azure
        .push(azure_entry(AzureRegion::EastUs2, StateLocationStatus::Deleting));
    assert!(state.is_available_in(&USW2));
    assert!(state.is_available_in(&EUS2));
    assert!(!state.is_available_in(&USE1));
    assert_eq!(state.all_locations(), vec![USW2, EUS2]);
}

#[test]
fn batch_guard_rejects_whole_batch() {
    let alfa = state_in("alfa", &[USE1, EUS2]);
    let bravo = state_in("bravo", &[USW2]);
    let charlie = state_in("charlie", &[USE1, EUS2]);
    let targets = vec![USW2, USE1, EUS2];
    match plan_reconcile(&vec![alfa, bravo, charlie], &targets, false) {
        Err(rejected) => {
            assert_eq!(
                rejected.remediation,
                vec![
                    "alfa us-west-2".to_string(),
                    "bravo us-east-1".to_string(),
                    "bravo eastus2".to_string(),
                    "charlie us-west-2".to_string(),
                ]
            );
            let message = rejected.message();
            assert!(message.ends_with(
                "alfa us-west-2\nbravo us-east-1\nbravo eastus2\ncharlie us-west-2"
            ));
        }
        Ok(_) => panic!("the batch must be rejected"),
    }
}

#[test]
fn batch_with_wait_extends_everything_in_order() {
    let alfa = state_in("alfa", &[USE1, EUS2]);
    let bravo = state_in("bravo", &[USW2]);
    let targets = vec![USW2, USE1, EUS2];
    let plan = match plan_reconcile(&vec![alfa, bravo], &targets, true) {
        Ok(plan) => plan,
        Err(_) => panic!("waiting allows several locations"),
    };
    let pairs: Vec<(String, Location)> = plan
        .iter()
        .map(|e| (e.state.as_str().to_string(), e.location))
        .collect();
    assert_eq!(
        pairs,
        vec![
            ("alfa".to_string(), USW2),
            ("bravo".to_string(), USE1),
            ("bravo".to_string(), EUS2),
        ]
    );
}

#[test]
fn batch_with_one_missing_each_needs_no_wait() {
    let alfa = state_in("alfa", &[USE1]);
    let bravo = state_in("bravo", &[USW2, USE1]);
    let targets = vec![USW2, USE1];
    match plan_reconcile(&vec![alfa, bravo], &targets, false) {
        Ok(plan) => {
            assert_eq!(plan.len(), 1);
            assert_eq!(plan[0].state.as_str(), "alfa");
            assert_eq!(plan[0].location, USW2);
        }
        Err(_) => panic!("no state misses more than one location"),
    }
}

fn record(status: StateLocationStatus) -> LocationRecord {
    LocationRecord::Aws(aws_entry(AwsRegion::UsWest2, status))
}

fn run_poll(statuses: &[StateLocationStatus]) -> (usize, Vec<u64>, StateLocationStatus) {
    let (mut step, mut action) =
        ExtendStep::Adding { wait: true }.next(record(StateLocationStatus::Provisioning));
    let mut queries = 0;
    let mut delays = vec![];
    let mut answers = statuses.iter();
    loop {
        match action {
            ExtendAction::QueryStatus { delay_secs } => {
                queries += 1;
                delays.push(delay_secs);
                let status = *answers.next().expect("queried more often than answered");
                let (s, a) = step.next(record(status));
                step = s;
                action = a;
            }
            ExtendAction::Finish(r) => {
                assert_eq!(step, ExtendStep::Done);
                return (queries, delays, r.status());
            }
        }
    }
}

#[test]
fn poll_stops_after_n_plus_one_queries() {
    let n = 3;
    let mut statuses = vec![StateLocationStatus::Provisioning; n];
    statuses.push(StateLocationStatus::Ready);
    let (queries, delays, last) = run_poll(&statuses);
    assert_eq!(queries, n + 1);
    assert_eq!(delays, vec![0, POLL_INTERVAL_SECS, POLL_INTERVAL_SECS, POLL_INTERVAL_SECS]);
    assert_eq!(last, StateLocationStatus::Ready);
}

#[test]
fn poll_stops_on_error_too() {
    let statuses = vec![
        StateLocationStatus::Provisioning,
        StateLocationStatus::Recovering,
        StateLocationStatus::Error,
    ];
    let (queries, _, last) = run_poll(&statuses);
    assert_eq!(queries, 3);
    assert_eq!(last, StateLocationStatus::Error);
}

#[test]
fn no_wait_finishes_with_the_addition() {
    let (step, action) =
        ExtendStep::Adding { wait: false }.next(record(StateLocationStatus::Provisioning));
    assert_eq!(step, ExtendStep::Done);
    match action {
        ExtendAction::Finish(r) => assert_eq!(r.status(), StateLocationStatus::Provisioning),
        _ => panic!("expected to finish"),
    }
}
