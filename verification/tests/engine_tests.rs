use course_crawler::item::{CourseItem, CourseType, Outcome};
use course_crawler::resolve::{
    classify, resolve_course, step_info, ChannelInfo, CourseDetail, CourseDetailResponse,
    CourseInfo, CourseInfoResponse, FetchResult, Fetcher, InfoStep,
};
use course_crawler::run::{BatchEngine, Resolution, RunState};

fn sample_info(verify_type: i64, image_mode: Option<&str>, has_audio: bool) -> CourseInfo {
    CourseInfo {
        liveroom_id: 900,
        liveroom_name: "room".to_string(),
        verify_type,
        image_mode: image_mode.map(|s| s.to_string()),
        has_audio_info: has_audio,
        channel: Some(ChannelInfo {
            id: Some(31),
            name: Some("chan".to_string()),
            lecture_count: Some(12),
        }),
        create_time: Some("2021-03-04T05:06:07Z".to_string()),
        update_time: None,
    }
}

fn row_item(course_id: &str, result: Outcome) -> CourseItem {
    CourseItem {
        index: 1,
        course_id: course_id.to_string(),
        title: String::new(),
        media_type: String::new(),
        lla_url: String::new(),
        course_type: CourseType::Video,
        result,
        channel_id: String::new(),
        channel_name: String::new(),
        liveroom_name: String::new(),
        lecture_count: 0,
        create_time: String::new(),
        update_time: String::new(),
    }
}

#[test]
fn classification_order() {
    assert_eq!(classify(&sample_info(1, Some("ppt"), true)), CourseType::PptVoice);
    assert_eq!(classify(&sample_info(2, None, true)), CourseType::Video);
    assert_eq!(classify(&sample_info(1, None, false)), CourseType::Video);
    assert_eq!(classify(&sample_info(5, None, true)), CourseType::AudioVoice);
    assert_eq!(classify(&sample_info(0, None, false)), CourseType::Voice);
    assert_eq!(classify(&sample_info(5, None, false)), CourseType::Unknown);
}

#[test]
fn step_info_failure_modes() {
    assert!(matches!(step_info(1, FetchResult::AuthFailure), InfoStep::Fatal));
    assert!(matches!(step_info(1, FetchResult::TransportFailure), InfoStep::Failed));
    let bad_code = CourseInfoResponse { code: 7, data: Some(sample_info(0, None, false)) };
    assert!(matches!(step_info(1, FetchResult::Fetched(bad_code)), InfoStep::Failed));
    let no_data = CourseInfoResponse { code: 0, data: None };
    assert!(matches!(step_info(1, FetchResult::Fetched(no_data)), InfoStep::Failed));
}

#[test]
fn ppt_row_carries_info_fields() {
    let resp = CourseInfoResponse { code: 0, data: Some(sample_info(1, Some("ppt"), false)) };
    match step_info(77, FetchResult::Fetched(resp)) {
        InfoStep::Done(it) => {
            assert_eq!(it.course_id, "77");
            assert_eq!(it.course_type, CourseType::PptVoice);
            assert_eq!(it.result, Outcome::NotParsed);
            assert_eq!(it.channel_id, "31");
            assert_eq!(it.channel_name, "chan");
            assert_eq!(it.liveroom_name, "room");
            assert_eq!(it.lecture_count, 12);
            assert_eq!(it.create_time, "2021/03/04 13:06:07");
            assert_eq!(it.update_time, "");
        }
        _ => panic!("expected a finished row"),
    }
}

/// A scripted fetch capability: answers from fixed tables and counts calls.
struct ScriptedFetcher {
    info_calls: Vec<u64>,
    detail_calls: Vec<u64>,
    auth_fail_ids: Vec<u64>,
    ppt_ids: Vec<u64>,
    video_ids: Vec<u64>,
}

impl ScriptedFetcher {
    fn new() -> Self {
        ScriptedFetcher {
            info_calls: Vec::new(),
            detail_calls: Vec::new(),
            auth_fail_ids: Vec::new(),
            ppt_ids: Vec::new(),
            video_ids: Vec::new(),
        }
    }
}

impl Fetcher for ScriptedFetcher {
    fn fetch_info(&mut self, course_id: u64) -> FetchResult<CourseInfoResponse> {
        self.info_calls.push(course_id);
        if self.auth_fail_ids.contains(&course_id) {
            return FetchResult::AuthFailure;
        }
        let (vt, mode) = if self.ppt_ids.contains(&course_id) {
            (5, Some("ppt"))
        } else if self.video_ids.contains(&course_id) {
            (1, None)
        } else {
            (0, None)
        };
        FetchResult::Fetched(CourseInfoResponse { code: 0, data: Some(sample_info(vt, mode, false)) })
    }

    fn fetch_detail(&mut self, _liveroom_id: i64, course_id: u64) -> FetchResult<CourseDetailResponse> {
        self.detail_calls.push(course_id);
        FetchResult::Fetched(CourseDetailResponse {
            code: 0,
            data: Some(CourseDetail {
                title: Some("lesson".to_string()),
                lla_type: Some("mp4".to_string()),
                lla_url: Some("https://cdn.example/v.mp4".to_string()),
                create_time: None,
                update_time: None,
            }),
        })
    }
}

#[test]
fn ppt_mode_makes_no_detail_fetch() {
    let mut f = ScriptedFetcher::new();
    f.ppt_ids.push(9);
    match resolve_course(&mut f, 9) {
        Resolution::Row(it) => {
            assert_eq!(it.course_type, CourseType::PptVoice);
            assert_eq!(it.result, Outcome::NotParsed);
        }
        _ => panic!("expected a row"),
    }
    assert_eq!(f.info_calls, vec![9]);
    assert!(f.detail_calls.is_empty());
}

#[test]
fn video_mode_resolves_through_detail() {
    let mut f = ScriptedFetcher::new();
    f.video_ids.push(4);
    match resolve_course(&mut f, 4) {
        Resolution::Row(it) => {
            assert_eq!(it.course_type, CourseType::Video);
            assert_eq!(it.result, Outcome::Success);
            assert_eq!(it.title, "lesson");
            assert_eq!(it.lla_url, "https://cdn.example/v.mp4");
            assert_eq!(it.media_type, "mp4");
            assert_eq!(it.channel_name, "chan");
        }
        _ => panic!("expected a row"),
    }
    assert_eq!(f.detail_calls, vec![4]);
}

#[test]
fn indices_follow_completion_order() {
    let mut st = RunState::start_run(3);
    let mut eng = BatchEngine::new(vec![10, 11, 12]);
    let a = eng.record_submitted(&mut st);
    let b = eng.record_submitted(&mut st);
    let c = eng.record_submitted(&mut st);
    assert_eq!((a, b, c), (10, 11, 12));
    // Tasks finish out of submission order.
    eng.record_completion(&mut st, c, Resolution::Row(row_item("12", Outcome::Success)));
    eng.record_completion(&mut st, a, Resolution::Row(row_item("10", Outcome::Failed)));
    eng.record_completion(&mut st, b, Resolution::Row(row_item("11", Outcome::NotParsed)));
    let ids: Vec<&str> = eng.rows.iter().map(|r| r.course_id.as_str()).collect();
    assert_eq!(ids, vec!["12", "10", "11"]);
    let indices: Vec<usize> = eng.rows.iter().map(|r| r.index).collect();
    assert_eq!(indices, vec![1, 2, 3]);
    assert_eq!(st.tallies.done, 3);
    assert_eq!(st.tallies.success, 1);
    assert_eq!(st.tallies.failed, 1);
    assert_eq!(st.tallies.ignored, 1);
}

#[test]
fn auth_failure_blocks_later_submissions_and_drops_no_collected_row() {
    let mut st = RunState::start_run(3);
    let mut eng = BatchEngine::new(vec![1000, 1001, 1002]);
    let a = eng.record_submitted(&mut st);
    let b = eng.record_submitted(&mut st);
    eng.record_completion(&mut st, a, Resolution::Row(row_item("1000", Outcome::Success)));
    eng.record_completion(&mut st, b, Resolution::AuthExpired);
    assert!(st.auth_expired);
    // 1002 never starts: the engine refuses admission now.
    assert!(!eng.can_submit(&st));
    assert_eq!(eng.rows.len(), 1);
    assert_eq!(eng.auth_drops, 1);
    assert_eq!(st.tallies.started, 2);
    assert_eq!(st.tallies.done, 1);
}

#[test]
fn user_cancel_lets_admitted_tasks_finish() {
    let mut st = RunState::start_run(4);
    let mut eng = BatchEngine::new(vec![1, 2, 3, 4]);
    let a = eng.record_submitted(&mut st);
    let b = eng.record_submitted(&mut st);
    st.request_cancel();
    assert!(!eng.can_submit(&st));
    // Both already-admitted tasks still land in the batch.
    eng.record_completion(&mut st, b, Resolution::Row(row_item("2", Outcome::Success)));
    eng.record_completion(&mut st, a, Resolution::TransportFailed);
    assert_eq!(eng.rows.len(), 2);
    assert_eq!(st.tallies.done, 2);
    assert_eq!(st.tallies.started, 2);
    assert_eq!(st.tallies.failed, 1);
    let indices: Vec<usize> = eng.rows.iter().map(|r| r.index).collect();
    assert_eq!(indices, vec![1, 2]);
}

#[test]
fn transport_failure_becomes_a_blank_failed_row() {
    let mut st = RunState::start_run(1);
    let mut eng = BatchEngine::new(vec![321]);
    let a = eng.record_submitted(&mut st);
    eng.record_completion(&mut st, a, Resolution::TransportFailed);
    assert_eq!(eng.rows.len(), 1);
    assert_eq!(eng.rows[0].course_id, "321");
    assert_eq!(eng.rows[0].result, Outcome::Failed);
    assert_eq!(eng.rows[0].course_type, CourseType::Blank);
    assert_eq!(eng.rows[0].title, "");
}

#[test]
fn cancel_is_idempotent_and_sticky() {
    let mut st = RunState::start_run(0);
    st.request_cancel();
    st.request_cancel();
    assert!(st.user_cancel);
    assert!(!st.auth_expired);
}
