use terroir_api::models::{
    event_category_or_default, ContactRequest, ContactSubmission, Timestamp, WaitlistEntry,
    WaitlistRequest,
};
use terroir_api::store::{create_contact, create_waitlist_entry};

fn at(secs: i64) -> Timestamp {
    Timestamp { secs, nanos: 0 }
}

fn signup(email: &str, interest: Option<&str>, name: Option<&str>, company: Option<&str>) -> WaitlistRequest {
    WaitlistRequest {
        email: email.to_string(),
        name: name.map(|s| s.to_string()),
        company: company.map(|s| s.to_string()),
        interest: interest.map(|s| s.to_string()),
        website: None,
        _form_loaded_at: None,
    }
}

#[test]
fn same_email_and_interest_twice_give_one_row_with_the_latest_values() {
    let mut rows: Vec<WaitlistEntry> = Vec::new();
    let first = create_waitlist_entry(&mut rows, &signup("a@x.example", Some("pilot"), Some("Ada"), None), 1, at(100));
    assert_eq!(rows.len(), 1);
    assert_eq!(first, rows[0]);
    let second = create_waitlist_entry(
        &mut rows,
        &signup("a@x.example", Some("pilot"), Some("Ada L."), Some("Vines")),
        2,
        at(200),
    );
    let expected = WaitlistEntry {
        id: 1,
        email: "a@x.example".to_string(),
        name: Some("Ada L.".to_string()),
        company: Some("Vines".to_string()),
        interest: "pilot".to_string(),
        created_at: at(100),
    };
    assert_eq!(rows, vec![expected.clone()]);
    assert_eq!(second, expected);
}

#[test]
fn upsert_overwrites_with_absent_values_too() {
    let mut rows: Vec<WaitlistEntry> = Vec::new();
    create_waitlist_entry(&mut rows, &signup("a@x.example", None, Some("Ada"), Some("Vines")), 1, at(1));
    create_waitlist_entry(&mut rows, &signup("a@x.example", None, None, None), 2, at(2));
    assert_eq!(rows.len(), 1);
    assert_eq!(rows[0].name, None);
    assert_eq!(rows[0].company, None);
    assert_eq!(rows[0].interest, "general");
    assert_eq!(rows[0].id, 1);
}

#[test]
fn different_interest_or_email_gives_a_new_row() {
    let mut rows: Vec<WaitlistEntry> = Vec::new();
    create_waitlist_entry(&mut rows, &signup("a@x.example", Some("pilot"), None, None), 1, at(1));
    create_waitlist_entry(&mut rows, &signup("a@x.example", Some("news"), None, None), 2, at(2));
    create_waitlist_entry(&mut rows, &signup("b@x.example", Some("pilot"), None, None), 3, at(3));
    create_waitlist_entry(&mut rows, &signup("a@x.example", None, None, None), 4, at(4));
    create_waitlist_entry(&mut rows, &signup("a@x.example", Some("general"), Some("Ada"), None), 5, at(5));
    assert_eq!(rows.len(), 4);
    let ids: Vec<u128> = rows.iter().map(|r| r.id).collect();
    assert_eq!(ids, vec![1, 2, 3, 4]);
    assert_eq!(rows[3].name, Some("Ada".to_string()));
    assert_eq!(rows[0].name, None);
}

#[test]
fn upsert_leaves_the_other_rows_alone() {
    let mut rows: Vec<WaitlistEntry> = Vec::new();
    create_waitlist_entry(&mut rows, &signup("a@x.example", None, Some("A"), None), 1, at(1));
    create_waitlist_entry(&mut rows, &signup("b@x.example", None, Some("B"), None), 2, at(2));
    create_waitlist_entry(&mut rows, &signup("c@x.example", None, Some("C"), None), 3, at(3));
    let before = rows.clone();
    create_waitlist_entry(&mut rows, &signup("b@x.example", None, Some("B2"), Some("Co")), 9, at(9));
    assert_eq!(rows.len(), 3);
    assert_eq!(rows[0], before[0]);
    assert_eq!(rows[2], before[2]);
    assert_eq!(rows[1].name, Some("B2".to_string()));
    assert_eq!(rows[1].company, Some("Co".to_string()));
    assert_eq!(rows[1].created_at, at(2));
}

#[test]
fn contact_is_stored_as_a_new_row_each_time() {
    let req = ContactRequest {
        name: "Ada".to_string(),
        email: "ada@example.com".to_string(),
        company: Some("Vines".to_string()),
        phone: None,
        acreage: Some("40".to_string()),
        crop_type: Some("grapes".to_string()),
        message: "Hello".to_string(),
        source: None,
        website: None,
        _form_loaded_at: Some(5),
    };
    let mut rows: Vec<ContactSubmission> = Vec::new();
    let row = create_contact(&mut rows, &req, 11, at(50));
    assert_eq!(
        row,
        ContactSubmission {
            id: 11,
            name: "Ada".to_string(),
            email: "ada@example.com".to_string(),
            company: Some("Vines".to_string()),
            phone: None,
            acreage: Some("40".to_string()),
            crop_type: Some("grapes".to_string()),
            message: "Hello".to_string(),
            source: "website".to_string(),
            created_at: at(50),
        }
    );
    assert_eq!(rows, vec![row.clone()]);
    let again = create_contact(&mut rows, &req, 12, at(60));
    assert_eq!(rows.len(), 2);
    assert_eq!(rows[0], row);
    assert_eq!(rows[1], again);
    assert_eq!(again.id, 12);
}

#[test]
fn defaults_of_optional_columns() {
    let mut req = ContactRequest {
        name: "n".to_string(),
        email: "e".to_string(),
        company: None,
        phone: None,
        acreage: None,
        crop_type: None,
        message: "m".to_string(),
        source: None,
        website: None,
        _form_loaded_at: None,
    };
    assert_eq!(req.source_or_default(), "website");
    req.source = Some("landing-page".to_string());
    assert_eq!(req.source_or_default(), "landing-page");
    req.source = Some(String::new());
    assert_eq!(req.source_or_default(), "");
    assert_eq!(signup("e", None, None, None).interest_or_default(), "general");
    assert_eq!(signup("e", Some("pilot"), None, None).interest_or_default(), "pilot");
    assert_eq!(event_category_or_default(&None), "interaction");
    assert_eq!(event_category_or_default(&Some("scroll".to_string())), "scroll");
}
