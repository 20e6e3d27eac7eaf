//! Output rows: the closed outcome set, the course-type classification and
//! the twelve-column row layout of exported artifacts.
use vstd::prelude::*;
use crate::numfmt::{dec_str, u64_to_string};

verus! {

/// Per-ID outcome, a closed set.
#[derive(Clone, Copy, PartialEq, Eq, Structural, Debug)]
pub enum Outcome {
    /// A media URL was resolved.
    Success,
    /// A transport, decode or API-status failure.
    Failed,
    /// The item is of a kind that is deliberately not resolved further.
    NotParsed,
}

/// Course-type classification of a resolved ID.
#[derive(Clone, Copy, PartialEq, Eq, Structural, Debug)]
pub enum CourseType {
    /// No classification rule matched.
    Unknown,
    /// Slide-audio; terminal, no detail fetch.
    PptVoice,
    /// Video; resolved through the detail fetch.
    Video,
    /// Auxiliary audio metadata present.
    AudioVoice,
    /// Verification tier zero.
    Voice,
    /// A synthesized failure row carries no classification.
    Blank,
}

pub open spec fn outcome_label_spec(o: Outcome) -> Seq<char> {
    match o {
        Outcome::Success => "成功"@,
        Outcome::Failed => "失败"@,
        Outcome::NotParsed => "不解析"@,
    }
}

pub fn outcome_label(o: Outcome) -> (r: String)
    ensures
        r@ == outcome_label_spec(o),
{
    match o {
        Outcome::Success => "成功".to_owned(),
        Outcome::Failed => "失败".to_owned(),
        Outcome::NotParsed => "不解析".to_owned(),
    }
}

pub open spec fn course_type_label_spec(t: CourseType) -> Seq<char> {
    match t {
        CourseType::Unknown => "未知"@,
        CourseType::PptVoice => "ppt语音"@,
        CourseType::Video => "视频"@,
        CourseType::AudioVoice => "audio语音"@,
        CourseType::Voice => "语音"@,
        CourseType::Blank => Seq::<char>::empty(),
    }
}

pub fn course_type_label(t: CourseType) -> (r: String)
    ensures
        r@ == course_type_label_spec(t),
{
    match t {
        CourseType::Unknown => "未知".to_owned(),
        CourseType::PptVoice => "ppt语音".to_owned(),
        CourseType::Video => "视频".to_owned(),
        CourseType::AudioVoice => "audio语音".to_owned(),
        CourseType::Voice => "语音".to_owned(),
        CourseType::Blank => String::new(),
    }
}

/// One output row. `index` is 1-based and reassigned per batch in completion
/// order; timestamps are already localized strings.
pub struct CourseItem {
    pub index: usize,
    pub course_id: String,
    pub title: String,
    pub media_type: String,
    pub lla_url: String,
    pub course_type: CourseType,
    pub result: Outcome,
    pub channel_id: String,
    pub channel_name: String,
    pub liveroom_name: String,
    pub lecture_count: i64,
    pub create_time: String,
    pub update_time: String,
}

/// Signed decimal rendering, for channel IDs and lecture counts.
pub open spec fn dec_str_int(v: int) -> Seq<char> {
    if v < 0 {
        seq!['-'] + dec_str((-v) as nat)
    } else {
        dec_str(v as nat)
    }
}

pub fn i64_to_string(v: i64) -> (r: String)
    ensures
        r@ == dec_str_int(v as int),
{
    if v >= 0 {
        u64_to_string(v as u64)
    } else {
        let mag: u64 = if v == i64::MIN {
            9223372036854775808u64
        } else {
            (-v) as u64
        };
        proof {
            assert(mag as nat == (-(v as int)) as nat);
            reveal_strlit("-");
        }
        let r = "-".to_owned().concat(u64_to_string(mag).as_str());
        proof {
            assert(r@ =~= seq!['-'] + dec_str((-(v as int)) as nat));
        }
        r
    }
}

/// The twelve cells of a row, in artifact column order: sequence number, ID,
/// title, course type, resolved URL, outcome, channel ID, channel name, room
/// name, lecture count, created, updated.
pub open spec fn row_cells(it: CourseItem) -> Seq<Seq<char>> {
    seq![
        dec_str(it.index as nat),
        it.course_id@,
        it.title@,
        course_type_label_spec(it.course_type),
        it.lla_url@,
        outcome_label_spec(it.result),
        it.channel_id@,
        it.channel_name@,
        it.liveroom_name@,
        dec_str_int(it.lecture_count as int),
        it.create_time@,
        it.update_time@,
    ]
}

/// The fixed header of every exported artifact, in column order.
pub open spec fn header_row_spec() -> Seq<Seq<char>> {
    seq![
        "序号"@,
        "课程 id"@,
        "标题"@,
        "课程类型"@,
        "解析地址"@,
        "解析结果"@,
        "频道ID"@,
        "频道名称"@,
        "直播间名称"@,
        "课程数量"@,
        "创建时间"@,
        "更新时间"@,
    ]
}

pub fn header_literal(j: usize) -> (r: &'static str)
    requires
        j < 12,
    ensures
        r@ == header_row_spec()[j as int],
{
    if j == 0 {
        "序号"
    } else if j == 1 {
        "课程 id"
    } else if j == 2 {
        "标题"
    } else if j == 3 {
        "课程类型"
    } else if j == 4 {
        "解析地址"
    } else if j == 5 {
        "解析结果"
    } else if j == 6 {
        "频道ID"
    } else if j == 7 {
        "频道名称"
    } else if j == 8 {
        "直播间名称"
    } else if j == 9 {
        "课程数量"
    } else if j == 10 {
        "创建时间"
    } else {
        "更新时间"
    }
}

/// The exported header as an owned row.
pub fn header_row() -> (r: Vec<String>)
    ensures
        r.deep_view() == header_row_spec(),
{
    let mut r: Vec<String> = Vec::new();
    let mut j: usize = 0;
    while j < 12
        invariant
            0 <= j <= 12,
            r@.len() == j,
            forall|t: int| 0 <= t < j ==> r.deep_view()[t] == header_row_spec()[t],
        decreases 12 - j,
    {
        r.push(header_literal(j).to_owned());
        j = j + 1;
    }
    proof {
        assert(r.deep_view() =~= header_row_spec());
    }
    r
}

/// The rendered string of one of a row's twelve cells.
pub fn row_cell_string(it: &CourseItem, j: usize) -> (r: String)
    requires
        j < 12,
    ensures
        r@ == row_cells(*it)[j as int],
{
    if j == 0 {
        u64_to_string(it.index as u64)
    } else if j == 1 {
        it.course_id.clone()
    } else if j == 2 {
        it.title.clone()
    } else if j == 3 {
        course_type_label(it.course_type)
    } else if j == 4 {
        it.lla_url.clone()
    } else if j == 5 {
        outcome_label(it.result)
    } else if j == 6 {
        it.channel_id.clone()
    } else if j == 7 {
        it.channel_name.clone()
    } else if j == 8 {
        it.liveroom_name.clone()
    } else if j == 9 {
        i64_to_string(it.lecture_count)
    } else if j == 10 {
        it.create_time.clone()
    } else {
        it.update_time.clone()
    }
}

/// A row that carries nothing but its ID, its ordinal and the failure
/// outcome: every descriptive field is empty.
pub open spec fn is_blank_failed_row(it: CourseItem, course_id: u64, index: int) -> bool {
    &&& it.index == index
    &&& it.course_id@ == dec_str(course_id as nat)
    &&& it.title@ == Seq::<char>::empty()
    &&& it.media_type@ == Seq::<char>::empty()
    &&& it.lla_url@ == Seq::<char>::empty()
    &&& it.course_type == CourseType::Blank
    &&& it.result == Outcome::Failed
    &&& it.channel_id@ == Seq::<char>::empty()
    &&& it.channel_name@ == Seq::<char>::empty()
    &&& it.liveroom_name@ == Seq::<char>::empty()
    &&& it.lecture_count == 0
    &&& it.create_time@ == Seq::<char>::empty()
    &&& it.update_time@ == Seq::<char>::empty()
}

/// The synthesized row for an ID whose resolution failed non-fatally: only
/// the ID and the failure outcome are filled in.
pub fn failed_row(course_id: u64) -> (it: CourseItem)
    ensures
        is_blank_failed_row(it, course_id, 1),
{
    CourseItem {
        index: 1,
        course_id: u64_to_string(course_id),
        title: String::new(),
        media_type: String::new(),
        lla_url: String::new(),
        course_type: CourseType::Blank,
        result: Outcome::Failed,
        channel_id: String::new(),
        channel_name: String::new(),
        liveroom_name: String::new(),
        lecture_count: 0,
        create_time: String::new(),
        update_time: String::new(),
    }
}

} // verus!
