//! Tests of the builders: paths, query strings and the validation rules.

use osapi::{Client, Error, Method, ScheduleQuery, Week, Weekday};

const BASE: &str = "https://api.example.com";

#[test]
fn test_schedule_query_validation() {
    let client = Client::new("https://api.example.com");
    let query = ScheduleQuery::new(&client, 1)
        .date("2023-01-01")
        .week(Week::Current);

    let result = query.validate();
    assert!(result.is_err());
}

#[test]
fn test_schedule_query_validation_success() {
    let client = Client::new("https://api.example.com");
    let query = ScheduleQuery::new(&client, 1).date("2023-01-01");

    let result = query.validate();
    assert!(result.is_ok());
}

#[test]
fn date_filter_excludes_every_other_filter() {
    let client = Client::new(BASE);
    let conflicting: Vec<ScheduleQuery> = vec![
        ScheduleQuery::new(&client, 1).date("2023-01-01").week(Week::Next),
        ScheduleQuery::new(&client, 1).date("2023-01-01").weekday(Weekday::Monday),
        ScheduleQuery::new(&client, 1).date("2023-01-01").today(),
        ScheduleQuery::new(&client, 1).date("2023-01-01").tomorrow(),
        ScheduleQuery::new(&client, 1)
            .date("2023-01-01")
            .week(Week::Next)
            .weekday(Weekday::Monday)
            .today(),
    ];
    for query in conflicting {
        match query.request() {
            Err(Error::Validation(m)) => {
                assert_eq!(m, "parameter 'date' cannot be combined with 'week', 'weekday' or 'day'");
            }
            other => panic!("expected a validation error, got {:?}", other.map(|p| p.path)),
        }
    }
}

#[test]
fn day_filter_excludes_week_and_weekday() {
    let client = Client::new(BASE);
    let conflicting: Vec<ScheduleQuery> = vec![
        ScheduleQuery::new(&client, 1).today().week(Week::Next),
        ScheduleQuery::new(&client, 1).tomorrow().weekday(Weekday::Friday),
        ScheduleQuery::new(&client, 1).today().week(Week::Next).weekday(Weekday::Friday),
    ];
    for query in conflicting {
        match query.request() {
            Err(Error::Validation(m)) => {
                assert_eq!(m, "parameter 'day' cannot be combined with 'week' or 'weekday'");
            }
            other => panic!("expected a validation error, got {:?}", other.map(|p| p.path)),
        }
    }
}

#[test]
fn week_and_weekday_are_both_forwarded() {
    let client = Client::new(BASE);
    let request = ScheduleQuery::new(&client, 5)
        .week(Week::Next)
        .weekday(Weekday::Monday)
        .request()
        .expect("week with weekday is a valid combination");
    assert_eq!(request.method, Method::Get);
    assert_eq!(request.path, "/groups/5/schedules?week=next&weekday=monday");
}

#[test]
fn no_filters_mean_no_query_string() {
    let client = Client::new(BASE);
    let request = ScheduleQuery::new(&client, 5).request().unwrap();
    assert_eq!(request.path, "/groups/5/schedules");
    assert!(request.bearer_token.is_none());
    assert!(request.body.is_none());
}

#[test]
fn each_single_filter_is_rendered_canonically() {
    let client = Client::new(BASE);
    let date = ScheduleQuery::new(&client, 7).date("2023-01-01").request().unwrap();
    assert_eq!(date.path, "/groups/7/schedules?date=2023-01-01");
    let day = ScheduleQuery::new(&client, 7).tomorrow().request().unwrap();
    assert_eq!(day.path, "/groups/7/schedules?day=tomorrow");
    let week = ScheduleQuery::new(&client, 7).week(Week::Previous).request().unwrap();
    assert_eq!(week.path, "/groups/7/schedules?week=previous");
    let weekday = ScheduleQuery::new(&client, 7).weekday(Weekday::Sunday).request().unwrap();
    assert_eq!(weekday.path, "/groups/7/schedules?weekday=sunday");
}

#[test]
fn later_writes_to_a_filter_win() {
    let client = Client::new(BASE);
    let request = ScheduleQuery::new(&client, 7)
        .week(Week::Previous)
        .week(Week::Next)
        .request()
        .unwrap();
    assert_eq!(request.path, "/groups/7/schedules?week=next");
    let request = ScheduleQuery::new(&client, 7).today().tomorrow().request().unwrap();
    assert_eq!(request.path, "/groups/7/schedules?day=tomorrow");
}

#[test]
fn collection_paths_nest_by_id() {
    let client = Client::new(BASE);
    assert_eq!(client.colleges().request().path, "/colleges");
    assert_eq!(client.colleges().name("TK").request().path, "/colleges?name=TK");
    assert_eq!(client.colleges().college(1).request().path, "/colleges/1");
    assert_eq!(client.colleges().college(1).campuses().request().path, "/colleges/1/campuses");
    assert_eq!(
        client.colleges().college(1).campuses().name("North").request().path,
        "/colleges/1/campuses?name=North"
    );
    assert_eq!(client.colleges().college(1).campus(2).request().path, "/campuses/2");
    assert_eq!(client.colleges().college(1).campus(2).groups().request().path, "/campuses/2/groups");
    assert_eq!(
        client.colleges().college(1).campus(2).groups().name("A-1").request().path,
        "/campuses/2/groups?name=A-1"
    );
    assert_eq!(client.colleges().college(1).campus(2).group(34).request().path, "/groups/34");
}

#[test]
fn nesting_discards_filters_of_the_outer_level() {
    let client = Client::new(BASE);
    // The name filter of the collection does not travel into the deeper builder.
    let path = client.colleges().name("TK").college(1).campuses().request().path;
    assert_eq!(path, "/colleges/1/campuses");
    let path = client
        .colleges()
        .college(1)
        .campuses()
        .name("North")
        .campus(2)
        .groups()
        .request()
        .path;
    assert_eq!(path, "/campuses/2/groups");
}

#[test]
fn group_shortcuts_reach_the_schedule_builder() {
    let client = Client::new(BASE);
    let group = client.colleges().college(1).campus(2).group(34);
    assert_eq!(group.today().request().unwrap().path, "/groups/34/schedules?day=today");
    let group = client.colleges().college(1).campus(2).group(34);
    assert_eq!(group.tomorrow().request().unwrap().path, "/groups/34/schedules?day=tomorrow");
    let group = client.colleges().college(1).campus(2).group(34);
    assert_eq!(
        group.date("2023-01-01").request().unwrap().path,
        "/groups/34/schedules?date=2023-01-01"
    );
    let group = client.colleges().college(1).campus(2).group(34);
    assert_eq!(group.week(Week::Current).request().unwrap().path, "/groups/34/schedules?week=current");
}

#[test]
fn default_college_shortcut_uses_the_remembered_id() {
    let client = Client::new(BASE).with_college(9);
    assert_eq!(client.college().request().path, "/colleges/9");
}

#[test]
fn full_url_prepends_the_base_endpoint() {
    let client = Client::new(BASE);
    let request = ScheduleQuery::new(&client, 5).request().unwrap();
    assert_eq!(client.full_url(&request.path), "https://api.example.com/groups/5/schedules");
}

#[test]
fn large_ids_are_rendered_in_full() {
    let client = Client::new(BASE);
    assert_eq!(client.colleges().college(0).request().path, "/colleges/0");
    assert_eq!(
        client.colleges().college(4294967295).request().path,
        "/colleges/4294967295"
    );
}
