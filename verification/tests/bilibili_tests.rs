use live_relay::bilibili::{BilibiliState, extract_access_id, w_webid_from_page};

#[test]
fn access_id_is_taken_from_the_render_data_block() {
    let page = b"junk \"access_id\":\"outside\" window._render_data_ = {\"access_id\":\"inside\"};";
    assert_eq!(extract_access_id(page), Some(b"inside".to_vec()));
}

#[test]
fn whole_page_is_searched_when_no_block_exists() {
    let page = b"prefix \"access_id\":\"abc123\" suffix";
    assert_eq!(extract_access_id(page), Some(b"abc123".to_vec()));
}

#[test]
fn spaced_needle_is_a_fallback() {
    let page = b"window._render_data_ = {\"access_id\": \"spaced\"}";
    assert_eq!(extract_access_id(page), Some(b"spaced".to_vec()));
}

#[test]
fn page_without_access_id_is_an_error() {
    let r = w_webid_from_page(b"<html>nothing here</html>");
    assert_eq!(r, Err(b"Failed to extract w_webid (access_id)".to_vec()));
}

#[test]
fn extracted_id_round_trips_through_the_state() {
    let page = b"window._render_data_ = {\"access_id\":\"w9\"}";
    let id = w_webid_from_page(page).unwrap();
    assert_eq!(id, b"w9".to_vec());
    let mut state = BilibiliState::new();
    assert!(state.w_webid().is_none());
    state.set_w_webid(id.clone());
    assert_eq!(state.w_webid(), Some(&id));
}
