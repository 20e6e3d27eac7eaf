use course_crawler::enumerate::enumerate_batches;
use course_crawler::item::{
    course_type_label, failed_row, header_row, outcome_label, row_cell_string, CourseItem,
    CourseType, Outcome,
};
use course_crawler::numfmt::{parse_u64, u64_to_string};
use course_crawler::item::i64_to_string;
use course_crawler::timefmt::bj_time;

fn blank_item(course_id: &str) -> CourseItem {
    CourseItem {
        index: 1,
        course_id: course_id.to_string(),
        title: String::new(),
        media_type: String::new(),
        lla_url: String::new(),
        course_type: CourseType::Blank,
        result: Outcome::Failed,
        channel_id: String::new(),
        channel_name: String::new(),
        liveroom_name: String::new(),
        lecture_count: 0,
        create_time: String::new(),
        update_time: String::new(),
    }
}

#[test]
fn enumerates_chunks_of_three() {
    let batches = enumerate_batches(1, 10, 3);
    let expect: Vec<Vec<u64>> = vec![vec![1, 2, 3], vec![4, 5, 6], vec![7, 8, 9], vec![10]];
    assert_eq!(batches, expect);
}

#[test]
fn chunk_size_zero_means_one_batch() {
    let batches = enumerate_batches(4, 7, 0);
    assert_eq!(batches, vec![vec![4, 5, 6, 7]]);
}

#[test]
fn oversized_chunk_means_one_batch() {
    let batches = enumerate_batches(4, 7, 100);
    assert_eq!(batches, vec![vec![4, 5, 6, 7]]);
}

#[test]
fn reversed_range_has_no_batches() {
    let batches = enumerate_batches(10, 9, 3);
    assert!(batches.is_empty());
}

#[test]
fn single_id_range() {
    let batches = enumerate_batches(42, 42, 5);
    assert_eq!(batches, vec![vec![42]]);
}

#[test]
fn decimal_rendering_and_parsing() {
    assert_eq!(u64_to_string(0), "0");
    assert_eq!(u64_to_string(907), "907");
    assert_eq!(u64_to_string(u64::MAX), "18446744073709551615");
    assert_eq!(parse_u64("907"), Some(907));
    assert_eq!(parse_u64("0"), Some(0));
    assert_eq!(parse_u64("18446744073709551615"), Some(u64::MAX));
    assert_eq!(parse_u64("18446744073709551616"), None);
    assert_eq!(parse_u64(""), None);
    assert_eq!(parse_u64("12a"), None);
    assert_eq!(parse_u64("-3"), None);
}

#[test]
fn signed_rendering() {
    assert_eq!(i64_to_string(0), "0");
    assert_eq!(i64_to_string(35), "35");
    assert_eq!(i64_to_string(-35), "-35");
    assert_eq!(i64_to_string(i64::MIN), "-9223372036854775808");
}

#[test]
fn outcome_labels() {
    assert_eq!(outcome_label(Outcome::Success), "成功");
    assert_eq!(outcome_label(Outcome::Failed), "失败");
    assert_eq!(outcome_label(Outcome::NotParsed), "不解析");
}

#[test]
fn course_type_labels() {
    assert_eq!(course_type_label(CourseType::Unknown), "未知");
    assert_eq!(course_type_label(CourseType::PptVoice), "ppt语音");
    assert_eq!(course_type_label(CourseType::Video), "视频");
    assert_eq!(course_type_label(CourseType::AudioVoice), "audio语音");
    assert_eq!(course_type_label(CourseType::Voice), "语音");
    assert_eq!(course_type_label(CourseType::Blank), "");
}

#[test]
fn failed_row_is_blank_but_for_the_id() {
    let it = failed_row(1234);
    assert_eq!(it.index, 1);
    assert_eq!(it.course_id, "1234");
    assert_eq!(it.result, Outcome::Failed);
    assert_eq!(it.course_type, CourseType::Blank);
    assert_eq!(it.title, "");
    assert_eq!(it.lla_url, "");
    assert_eq!(it.lecture_count, 0);
}

#[test]
fn header_row_has_twelve_columns() {
    let h = header_row();
    assert_eq!(
        h,
        vec![
            "序号",
            "课程 id",
            "标题",
            "课程类型",
            "解析地址",
            "解析结果",
            "频道ID",
            "频道名称",
            "直播间名称",
            "课程数量",
            "创建时间",
            "更新时间"
        ]
    );
}

#[test]
fn row_cells_follow_column_order() {
    let mut it = blank_item("55");
    it.index = 3;
    it.title = "t".to_string();
    it.course_type = CourseType::Video;
    it.result = Outcome::Success;
    it.lecture_count = 7;
    assert_eq!(row_cell_string(&it, 0), "3");
    assert_eq!(row_cell_string(&it, 1), "55");
    assert_eq!(row_cell_string(&it, 2), "t");
    assert_eq!(row_cell_string(&it, 3), "视频");
    assert_eq!(row_cell_string(&it, 5), "成功");
    assert_eq!(row_cell_string(&it, 9), "7");
}

#[test]
fn bj_time_localizes_to_utc_plus_eight() {
    assert_eq!(bj_time("2021-03-04T05:06:07Z"), "2021/03/04 13:06:07");
    assert_eq!(bj_time("2020-12-31T20:00:00Z"), "2021/01/01 04:00:00");
    // An explicit source offset is normalized to the same instant first.
    assert_eq!(bj_time("2021-01-01T23:30:00+05:00"), "2021/01/02 02:30:00");
}

#[test]
fn bj_time_rejects_garbage() {
    assert_eq!(bj_time(""), "");
    assert_eq!(bj_time("yesterday"), "");
    assert_eq!(bj_time("2021-13-99T99:99:99Z"), "");
}
