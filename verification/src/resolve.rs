//! The per-ID decision tree: classify the info payload, fetch detail only
//! for video-tier rooms, and build the output row.
use vstd::prelude::*;
use crate::item::{CourseItem, CourseType, Outcome};
use crate::numfmt::dec_str;
use crate::item::{i64_to_string, dec_str_int};
use crate::run::Resolution;
use crate::timefmt::{bj_time_opt, spec_bj_time_opt};

verus! {

/// Channel block of an info payload.
pub struct ChannelInfo {
    pub id: Option<i64>,
    pub name: Option<String>,
    pub lecture_count: Option<i64>,
}

/// The fields of an info payload that the decision tree reads.
pub struct CourseInfo {
    pub liveroom_id: i64,
    pub liveroom_name: String,
    pub verify_type: i64,
    pub image_mode: Option<String>,
    pub has_audio_info: bool,
    pub channel: Option<ChannelInfo>,
    pub create_time: Option<String>,
    pub update_time: Option<String>,
}

pub struct CourseInfoResponse {
    pub code: i64,
    pub data: Option<CourseInfo>,
}

/// The lecture block of a detail payload.
pub struct CourseDetail {
    pub title: Option<String>,
    pub lla_type: Option<String>,
    pub lla_url: Option<String>,
    pub create_time: Option<String>,
    pub update_time: Option<String>,
}

pub struct CourseDetailResponse {
    pub code: i64,
    pub data: Option<CourseDetail>,
}

/// How one remote fetch ended, as the core sees it.
pub enum FetchResult<T> {
    /// A decoded payload came back.
    Fetched(T),
    /// The remote rejected the credential: fatal for the whole run.
    AuthFailure,
    /// Any other transport or decode failure: non-fatal.
    TransportFailure,
}

/// The injected fetch capability; the core never talks to a transport
/// directly. Implementations live outside the verified core.
pub trait Fetcher {
    fn fetch_info(&mut self, course_id: u64) -> FetchResult<CourseInfoResponse>;

    fn fetch_detail(&mut self, liveroom_id: i64, course_id: u64) -> FetchResult<
        CourseDetailResponse,
    >;
}

/// The classification rule: slide mode wins, then video tiers one and two,
/// then auxiliary audio, then tier zero.
pub open spec fn spec_classify(d: CourseInfo) -> CourseType {
    if d.image_mode.deep_view() == Some("ppt"@) {
        CourseType::PptVoice
    } else if d.verify_type == 1 || d.verify_type == 2 {
        CourseType::Video
    } else if d.has_audio_info {
        CourseType::AudioVoice
    } else if d.verify_type == 0 {
        CourseType::Voice
    } else {
        CourseType::Unknown
    }
}

pub fn classify(d: &CourseInfo) -> (t: CourseType)
    ensures
        t == spec_classify(*d),
{
    let ppt: String = "ppt".to_owned();
    let is_ppt = match &d.image_mode {
        Some(m) => *m == ppt,
        None => false,
    };
    if is_ppt {
        CourseType::PptVoice
    } else if d.verify_type == 1 || d.verify_type == 2 {
        CourseType::Video
    } else if d.has_audio_info {
        CourseType::AudioVoice
    } else if d.verify_type == 0 {
        CourseType::Voice
    } else {
        CourseType::Unknown
    }
}

pub open spec fn spec_channel_id(c: Option<ChannelInfo>) -> Seq<char> {
    match c {
        Some(ch) => match ch.id {
            Some(v) => dec_str_int(v as int),
            None => Seq::<char>::empty(),
        },
        None => Seq::<char>::empty(),
    }
}

pub open spec fn spec_channel_name(c: Option<ChannelInfo>) -> Seq<char> {
    match c {
        Some(ch) => match ch.name {
            Some(n) => n@,
            None => Seq::<char>::empty(),
        },
        None => Seq::<char>::empty(),
    }
}

pub open spec fn spec_lecture_count(c: Option<ChannelInfo>) -> int {
    match c {
        Some(ch) => match ch.lecture_count {
            Some(v) => v as int,
            None => 0,
        },
        None => 0,
    }
}

fn channel_id_string(c: &Option<ChannelInfo>) -> (r: String)
    ensures
        r@ == spec_channel_id(*c),
{
    match c {
        Some(ch) => match ch.id {
            Some(v) => i64_to_string(v),
            None => String::new(),
        },
        None => String::new(),
    }
}

fn channel_name_string(c: &Option<ChannelInfo>) -> (r: String)
    ensures
        r@ == spec_channel_name(*c),
{
    match c {
        Some(ch) => match &ch.name {
            Some(n) => n.clone(),
            None => String::new(),
        },
        None => String::new(),
    }
}

fn channel_lecture_count(c: &Option<ChannelInfo>) -> (r: i64)
    ensures
        r as int == spec_lecture_count(*c),
{
    match c {
        Some(ch) => match ch.lecture_count {
            Some(v) => v,
            None => 0,
        },
        None => 0,
    }
}

/// The row built from the info payload alone: no title or URL, outcome
/// "not parsed", descriptive fields copied verbatim, timestamps localized.
pub open spec fn is_base_row(it: CourseItem, course_id: u64, d: CourseInfo) -> bool {
    &&& it.index == 1
    &&& it.course_id@ == dec_str(course_id as nat)
    &&& it.title@ == Seq::<char>::empty()
    &&& it.media_type@ == Seq::<char>::empty()
    &&& it.lla_url@ == Seq::<char>::empty()
    &&& it.course_type == spec_classify(d)
    &&& it.result == Outcome::NotParsed
    &&& it.channel_id@ == spec_channel_id(d.channel)
    &&& it.channel_name@ == spec_channel_name(d.channel)
    &&& it.liveroom_name@ == d.liveroom_name@
    &&& it.lecture_count as int == spec_lecture_count(d.channel)
    &&& it.create_time@ == spec_bj_time_opt(d.create_time.deep_view())
    &&& it.update_time@ == spec_bj_time_opt(d.update_time.deep_view())
}

/// The row built from a detail payload: title, media type and URL from the
/// detail, success exactly when a URL is present, channel fields still from
/// the info payload, timestamps from the detail.
pub open spec fn is_detail_row(
    it: CourseItem,
    course_id: u64,
    d: CourseInfo,
    lec: CourseDetail,
) -> bool {
    &&& it.index == 1
    &&& it.course_id@ == dec_str(course_id as nat)
    &&& it.title@ == (match lec.title {
        Some(t) => t@,
        None => Seq::<char>::empty(),
    })
    &&& it.media_type@ == (match lec.lla_type {
        Some(t) => t@,
        None => Seq::<char>::empty(),
    })
    &&& it.lla_url@ == (match lec.lla_url {
        Some(u) => u@,
        None => Seq::<char>::empty(),
    })
    &&& it.course_type == CourseType::Video
    &&& it.result == (if lec.lla_url is Some {
        Outcome::Success
    } else {
        Outcome::Failed
    })
    &&& it.channel_id@ == spec_channel_id(d.channel)
    &&& it.channel_name@ == spec_channel_name(d.channel)
    &&& it.liveroom_name@ == d.liveroom_name@
    &&& it.lecture_count as int == spec_lecture_count(d.channel)
    &&& it.create_time@ == spec_bj_time_opt(lec.create_time.deep_view())
    &&& it.update_time@ == spec_bj_time_opt(lec.update_time.deep_view())
}

fn base_row(course_id: u64, d: &CourseInfo) -> (it: CourseItem)
    ensures
        is_base_row(it, course_id, *d),
{
    CourseItem {
        index: 1,
        course_id: crate::numfmt::u64_to_string(course_id),
        title: String::new(),
        media_type: String::new(),
        lla_url: String::new(),
        course_type: classify(d),
        result: Outcome::NotParsed,
        channel_id: channel_id_string(&d.channel),
        channel_name: channel_name_string(&d.channel),
        liveroom_name: d.liveroom_name.clone(),
        lecture_count: channel_lecture_count(&d.channel),
        create_time: bj_time_opt(&d.create_time),
        update_time: bj_time_opt(&d.update_time),
    }
}

/// Where the decision stands after the info fetch.
pub enum InfoStep {
    /// Authorization failure: fatal for the run.
    Fatal,
    /// Non-fatal failure: the ID is downgraded to a failure row.
    Failed,
    /// A finished row; no further fetch.
    Done(CourseItem),
    /// A video-tier room: the detail must be fetched for this payload.
    NeedDetail(CourseInfo),
}

/// First step of the decision tree, a pure function of the fetch result.
pub fn step_info(course_id: u64, r: FetchResult<CourseInfoResponse>) -> (s: InfoStep)
    ensures
        match r {
            FetchResult::AuthFailure => s is Fatal,
            FetchResult::TransportFailure => s is Failed,
            FetchResult::Fetched(resp) => {
                if resp.code != 0 {
                    s is Failed
                } else {
                    match resp.data {
                        None => s is Failed,
                        Some(d) => {
                            if spec_classify(d) == CourseType::Video {
                                s == InfoStep::NeedDetail(d)
                            } else {
                                s matches InfoStep::Done(it) && is_base_row(it, course_id, d)
                            }
                        },
                    }
                }
            },
        },
{
    match r {
        FetchResult::AuthFailure => InfoStep::Fatal,
        FetchResult::TransportFailure => InfoStep::Failed,
        FetchResult::Fetched(resp) => {
            if resp.code != 0 {
                return InfoStep::Failed;
            }
            match resp.data {
                None => InfoStep::Failed,
                Some(d) => {
                    let ct = classify(&d);
                    if ct == CourseType::Video {
                        InfoStep::NeedDetail(d)
                    } else {
                        InfoStep::Done(base_row(course_id, &d))
                    }
                },
            }
        },
    }
}

/// Where the decision stands after the detail fetch.
pub enum DetailStep {
    Fatal,
    Failed,
    Done(CourseItem),
}

/// Second step of the decision tree, for video-tier rooms.
pub fn step_detail(course_id: u64, d: CourseInfo, r: FetchResult<CourseDetailResponse>) -> (s:
    DetailStep)
    ensures
        match r {
            FetchResult::AuthFailure => s is Fatal,
            FetchResult::TransportFailure => s is Failed,
            FetchResult::Fetched(resp) => {
                if resp.code != 0 {
                    s is Failed
                } else {
                    match resp.data {
                        None => s is Failed,
                        Some(lec) => s matches DetailStep::Done(it) && is_detail_row(
                            it,
                            course_id,
                            d,
                            lec,
                        ),
                    }
                }
            },
        },
{
    match r {
        FetchResult::AuthFailure => DetailStep::Fatal,
        FetchResult::TransportFailure => DetailStep::Failed,
        FetchResult::Fetched(resp) => {
            if resp.code != 0 {
                return DetailStep::Failed;
            }
            match resp.data {
                None => DetailStep::Failed,
                Some(lec) => {
                    let result = if lec.lla_url.is_some() {
                        Outcome::Success
                    } else {
                        Outcome::Failed
                    };
                    let title = match lec.title {
                        Some(t) => t,
                        None => String::new(),
                    };
                    let media_type = match lec.lla_type {
                        Some(t) => t,
                        None => String::new(),
                    };
                    let lla_url = match lec.lla_url {
                        Some(u) => u,
                        None => String::new(),
                    };
                    DetailStep::Done(
                        CourseItem {
                            index: 1,
                            course_id: crate::numfmt::u64_to_string(course_id),
                            title,
                            media_type,
                            lla_url,
                            course_type: CourseType::Video,
                            result,
                            channel_id: channel_id_string(&d.channel),
                            channel_name: channel_name_string(&d.channel),
                            liveroom_name: d.liveroom_name.clone(),
                            lecture_count: channel_lecture_count(&d.channel),
                            create_time: bj_time_opt(&lec.create_time),
                            update_time: bj_time_opt(&lec.update_time),
                        },
                    )
                },
            }
        },
    }
}

/// Resolves one ID end to end against the injected fetch capability. Nothing
/// is promised of what the remote returns; whatever comes back, a produced
/// row carries this ID and the starting index.
pub fn resolve_course<F: Fetcher>(f: &mut F, course_id: u64) -> (r: Resolution)
    ensures
        r matches Resolution::Row(it) ==> it.index == 1 && it.course_id@ == dec_str(
            course_id as nat,
        ),
{
    let info = f.fetch_info(course_id);
    match step_info(course_id, info) {
        InfoStep::Fatal => Resolution::AuthExpired,
        InfoStep::Failed => Resolution::TransportFailed,
        InfoStep::Done(it) => Resolution::Row(it),
        InfoStep::NeedDetail(d) => {
            let liveroom_id = d.liveroom_id;
            let detail = f.fetch_detail(liveroom_id, course_id);
            match step_detail(course_id, d, detail) {
                DetailStep::Fatal => Resolution::AuthExpired,
                DetailStep::Failed => Resolution::TransportFailed,
                DetailStep::Done(it) => Resolution::Row(it),
            }
        },
    }
}

} // verus!
