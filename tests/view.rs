use grades::grade::{Grade, Scalar};
use grades::print::{credits_string, indent, write_entry, write_header, write_progress, CYN, ERASE_TO_LINE_END, RED, RST};
use grades::progress::Progress;
use grades::tasks::Tasks;
use grades::uni_info::{Course, Moment, Semester, UniInfo};

fn sample() -> UniInfo {
    let mut tasks = Tasks::new();
    tasks.insert("read".to_string());
    let m = Moment {
        code: "LAB1".to_string(),
        grade: Grade::Ongoing,
        credits: 1500,
        description: "Lab".to_string(),
        tasks: Some(tasks),
    };
    let c = Course { code: "DD1".to_string(), grade: Grade::Ongoing, moments: vec![m], name: "Intro".to_string() };
    UniInfo::new(vec![Semester { first: vec![c], second: Vec::new() }])
}

#[test]
fn indentation_is_four_spaces_per_level() {
    assert_eq!(indent(0), "");
    assert_eq!(indent(2), "        ");
}

#[test]
fn entry_row_text() {
    assert_eq!(write_entry(&"X".to_string(), false, 2), format!("        X{ERASE_TO_LINE_END}"));
    assert_eq!(write_entry(&"X".to_string(), true, 0), format!("\u{2192}X{ERASE_TO_LINE_END}"));
}

#[test]
fn header_row_text() {
    assert_eq!(write_header("Semester", 1, true, 0), format!("\u{2192}\u{2022} Semester 1:{ERASE_TO_LINE_END}"));
    assert_eq!(write_header("Period", 12, false, 1), format!("    \u{2022} Period 12:{ERASE_TO_LINE_END}"));
}

#[test]
fn progress_row_text() {
    let p = Progress { accrued: 5000, total: 6500, mark_sum: 8, marks: 1 };
    assert_eq!(
        write_progress(&p, 1),
        format!("    {CYN}4.000{RST}avg \u{2016} {CYN}5.0/6.5{RST} ECTS{ERASE_TO_LINE_END}")
    );
}

#[test]
fn progress_row_without_marks_is_flagged() {
    let p = Progress { accrued: 0, total: 2000, mark_sum: 0, marks: 0 };
    assert_eq!(
        write_progress(&p, 0),
        format!("{RED}-.---{RST}avg \u{2016} {RED}0.0/2.0{RST} ECTS{ERASE_TO_LINE_END}")
    );
}

#[test]
fn credits_round_half_up_to_tenths() {
    assert_eq!(credits_string(1450), "1.5");
    assert_eq!(credits_string(1449), "1.4");
    assert_eq!(credits_string(0), "0.0");
    assert_eq!(credits_string(120000), "120.0");
}

#[test]
fn course_and_moment_texts() {
    let uni = sample();
    let c = &uni.menu()[0].first[0];
    assert_eq!(c.text(), format!("[\x1b[94m\u{2026}{RST}] \x1b[4mDD1{RST} \x1b[1m\x1b[94mIntro{RST} 1.5 ECTS"));
    let m = &c.moments[0];
    assert_eq!(m.text(), format!("[{RED} {RST}] [LAB1] \x1b[93m\x1b[3mLab{RST} 1.5 ECTS"));
    let mut done = Moment { code: "E".to_string(), grade: Grade::Grade(5), credits: 7500, description: "Exam".to_string(), tasks: None };
    assert_eq!(done.text(), format!("[\x1b[92m5{RST}] \x1b[9m[E] \x1b[93m\x1b[3mExam{RST} 7.5 ECTS"));
    done.grade = Grade::Completed(false);
    assert!(done.text().starts_with(&format!("[{RED}U{RST}] [E]")));
}

#[test]
fn rows_of_a_small_document() {
    let uni = sample();
    let rows = uni.render().unwrap();
    assert_eq!(rows.len(), 11);
    assert!(rows[0].text.contains("Averages include gradings 3..5 and A..E"));
    assert!(rows[1].targeted);
    assert_eq!(rows[1].text, format!("\u{2192}\u{2022} Semester 1:{ERASE_TO_LINE_END}"));
    assert_eq!(rows[2].text, format!("    \u{2022} Period 1:{ERASE_TO_LINE_END}"));
    assert!(rows[3].text.starts_with("        ["));
    assert!(rows[4].text.starts_with("            ["));
    assert_eq!(rows[5].text, format!("                    read{RST}{ERASE_TO_LINE_END}"));
    assert!(rows[6].text.contains("-.---"));
    assert_eq!(rows[7].text, format!("    \u{2022} Period 2:{ERASE_TO_LINE_END}"));
    assert_eq!(rows.iter().filter(|r| r.targeted).count(), 1);
    assert_eq!(uni.cursor_offset(), 1);
}

#[test]
fn cursor_offset_follows_the_cursor() {
    let mut uni = sample();
    uni.cursor_enter();
    uni.cursor_enter();
    uni.cursor_enter();
    uni.cursor_enter();
    assert_eq!(uni.cursor_offset(), 5);
    let rows = uni.render().unwrap();
    assert!(rows[5].targeted);
    assert!(rows[5].text.starts_with('\u{2192}'));
}

#[test]
fn passed_course_hides_its_moments() {
    let mut uni = sample();
    uni.cursor_enter();
    uni.cursor_enter();
    uni.set_course_grade(Grade::Completed(true));
    assert_eq!(uni.render().unwrap().len(), 9);
}

#[test]
fn out_of_range_grade_fails_to_render() {
    let mut uni = sample();
    uni.cursor_enter();
    uni.cursor_enter();
    uni.set_course_grade(Grade::Grade(7));
    assert!(!uni.grades_valid());
    assert!(uni.render().is_none());
    uni.set_course_grade(Grade::Traditional('B'));
    assert!(uni.render().is_some());
    uni.set_course_grade(Grade::Ongoing);
    uni.cursor_enter();
    uni.set_moment_grade(Grade::Traditional('Q'));
    assert!(uni.render().is_none());
}

#[test]
fn grade_scalars_round_trip() {
    for g in [Grade::Completed(false), Grade::Completed(true), Grade::Grade(3), Grade::Grade(5), Grade::Traditional('A'), Grade::Ongoing] {
        assert_eq!(Grade::from_scalar(&g.to_scalar()), Some(g));
    }
    assert_eq!(Grade::Completed(false).to_scalar(), Scalar::Bool(false));
    assert_eq!(Grade::Grade(4).to_scalar(), Scalar::Number(4));
    assert_eq!(Grade::Traditional('B').to_scalar(), Scalar::Text("B".to_string()));
    assert_eq!(Grade::Ongoing.to_scalar(), Scalar::Null);
}

#[test]
fn grade_scalars_out_of_range() {
    assert_eq!(Grade::from_scalar(&Scalar::Number(2)), None);
    assert_eq!(Grade::from_scalar(&Scalar::Number(6)), None);
    assert_eq!(Grade::from_scalar(&Scalar::Text("F".to_string())), None);
    assert_eq!(Grade::from_scalar(&Scalar::Text("AB".to_string())), None);
    assert_eq!(Grade::from_scalar(&Scalar::Text(String::new())), None);
    assert_eq!(Grade::from_scalar(&Scalar::Bool(false)), Some(Grade::Completed(false)));
}
