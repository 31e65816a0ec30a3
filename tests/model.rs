use grades::cursor::{Cursor, Level};
use grades::grade::Grade;
use grades::progress::Progress;
use grades::tasks::Tasks;
use grades::uni_info::{Course, Moment, Semester, UniInfo};

fn course(code: &str, grade: Grade, moments: Vec<Moment>) -> Course {
    Course { code: code.to_string(), grade, moments, name: format!("{code} name") }
}

fn moment(code: &str, grade: Grade, credits: u64) -> Moment {
    Moment { code: code.to_string(), grade, credits, description: String::new(), tasks: None }
}

fn one_period(courses: Vec<Course>) -> UniInfo {
    UniInfo::new(vec![Semester { first: courses, second: Vec::new() }])
}

#[test]
fn cursor_enter_stops_at_task() {
    let mut c = Cursor::default();
    for _ in 0..7 {
        c.enter();
    }
    assert_eq!(c.level, Level::Task);
}

#[test]
fn cursor_exit_stops_at_semester_and_resets() {
    let mut c = Cursor { semester: 3, period: 1, course: 2, moment: 0, task: 0, level: Level::Course };
    c.exit();
    assert_eq!(c.level, Level::Period);
    assert_eq!(c.course, 0);
    assert_eq!(c.period, 1);
    c.exit();
    assert_eq!(c.level, Level::Semester);
    assert_eq!(c.period, 0);
    c.exit();
    assert_eq!(c.level, Level::Semester);
    assert_eq!(c.semester, 0);
}

#[test]
fn cursor_down_clamps_and_up_saturates() {
    let mut c = Cursor::default();
    c.down(3);
    c.down(3);
    c.down(3);
    assert_eq!(c.semester, 2);
    c.down(0);
    assert_eq!(c.semester, 2);
    c.up();
    c.up();
    c.up();
    assert_eq!(c.semester, 0);
}

#[test]
fn empty_document_add_semester_then_course() {
    let mut uni = UniInfo::new(Vec::new());
    assert_eq!(uni.cursor(), Cursor::default());
    assert_eq!(uni.cursor_level(), Level::Semester);
    uni.add_semester();
    assert_eq!(uni.menu().len(), 1);
    assert!(uni.menu()[0].first.is_empty());
    assert!(uni.menu()[0].second.is_empty());
    uni.cursor_enter();
    assert_eq!(uni.cursor_level(), Level::Period);
    uni.add_course("DD1337".to_string(), Grade::Ongoing, "Programming".to_string());
    assert_eq!(uni.menu()[0].first.len(), 1);
    assert_eq!(uni.menu()[0].second.len(), 0);
}

#[test]
fn passed_course_is_not_entered_ongoing_is() {
    let mut uni = one_period(vec![
        course("A", Grade::Completed(true), vec![moment("m", Grade::Ongoing, 1000)]),
        course("B", Grade::Ongoing, vec![moment("m", Grade::Ongoing, 1000)]),
    ]);
    uni.cursor_enter();
    uni.cursor_enter();
    assert_eq!(uni.cursor_level(), Level::Course);
    uni.cursor_enter();
    assert_eq!(uni.cursor_level(), Level::Course);
    uni.cursor_down();
    assert_eq!(uni.cursor().course, 1);
    uni.cursor_enter();
    assert_eq!(uni.cursor_level(), Level::Moment);
}

#[test]
fn ongoing_course_without_moments_is_not_entered() {
    let mut uni = one_period(vec![course("A", Grade::Ongoing, Vec::new())]);
    uni.cursor_enter();
    uni.cursor_enter();
    uni.cursor_enter();
    assert_eq!(uni.cursor_level(), Level::Course);
}

#[test]
fn deleting_only_course_exits_to_period() {
    let mut uni = one_period(vec![course("A", Grade::Ongoing, Vec::new())]);
    uni.cursor_enter();
    uni.cursor_enter();
    assert_eq!(uni.cursor_level(), Level::Course);
    uni.delete_entry();
    assert_eq!(uni.cursor_level(), Level::Period);
    assert!(uni.menu()[0].first.is_empty());
}

#[test]
fn deleting_last_course_moves_up() {
    let mut uni = one_period(vec![
        course("A", Grade::Ongoing, Vec::new()),
        course("B", Grade::Ongoing, Vec::new()),
        course("C", Grade::Ongoing, Vec::new()),
    ]);
    uni.cursor_enter();
    uni.cursor_enter();
    uni.cursor_down();
    uni.cursor_down();
    assert_eq!(uni.cursor().course, 2);
    uni.delete_entry();
    assert_eq!(uni.cursor_level(), Level::Course);
    assert_eq!(uni.cursor().course, 1);
    assert_eq!(uni.menu()[0].first.len(), 2);
    assert_eq!(uni.menu()[0].first[1].code, "B");
}

#[test]
fn deleting_middle_course_keeps_index() {
    let mut uni = one_period(vec![
        course("A", Grade::Ongoing, Vec::new()),
        course("B", Grade::Ongoing, Vec::new()),
        course("C", Grade::Ongoing, Vec::new()),
    ]);
    uni.cursor_enter();
    uni.cursor_enter();
    uni.cursor_down();
    uni.delete_entry();
    assert_eq!(uni.cursor().course, 1);
    assert_eq!(uni.menu()[0].first[1].code, "C");
}

#[test]
fn period_is_never_deleted() {
    let mut uni = one_period(vec![course("A", Grade::Ongoing, Vec::new())]);
    uni.cursor_enter();
    uni.delete_entry();
    assert_eq!(uni.cursor_level(), Level::Period);
    assert_eq!(uni.menu()[0].first.len(), 1);
}

#[test]
fn deleting_semesters_down_to_none() {
    let mut uni = UniInfo::new(Vec::new());
    uni.add_semester();
    uni.add_semester();
    uni.cursor_down();
    uni.delete_entry();
    assert_eq!(uni.menu().len(), 1);
    assert_eq!(uni.cursor().semester, 0);
    uni.delete_entry();
    assert_eq!(uni.menu().len(), 0);
    assert_eq!(uni.cursor_level(), Level::Semester);
    uni.delete_entry();
    assert_eq!(uni.menu().len(), 0);
}

#[test]
fn add_task_then_delete_leaves_no_task_list() {
    let mut uni = one_period(vec![course("A", Grade::Ongoing, vec![moment("m", Grade::Ongoing, 1000)])]);
    uni.cursor_enter();
    uni.cursor_enter();
    uni.cursor_enter();
    assert_eq!(uni.cursor_level(), Level::Moment);
    uni.add_task("Do the dishes".to_string());
    assert_eq!(uni.menu()[0].first[0].moments[0].tasks.as_ref().map(|t| t.len()), Some(1));
    uni.cursor_enter();
    assert_eq!(uni.cursor_level(), Level::Task);
    uni.delete_entry();
    assert!(uni.menu()[0].first[0].moments[0].tasks.is_none());
    assert_eq!(uni.cursor_level(), Level::Moment);
}

#[test]
fn toggle_task_and_set_fields() {
    let mut uni = one_period(vec![course("A", Grade::Ongoing, vec![moment("m", Grade::Ongoing, 1000)])]);
    uni.cursor_enter();
    uni.cursor_enter();
    uni.set_course_grade(Grade::Grade(4));
    uni.set_course_code("B".to_string());
    uni.set_course_name("Bee".to_string());
    assert_eq!(uni.menu()[0].first[0].grade, Grade::Grade(4));
    assert_eq!(uni.menu()[0].first[0].code, "B");
    assert_eq!(uni.menu()[0].first[0].name, "Bee");
    uni.set_course_grade(Grade::Ongoing);
    uni.cursor_enter();
    uni.set_moment_grade(Grade::Completed(true));
    uni.set_moment_code("X".to_string());
    uni.set_moment_description("exam".to_string());
    uni.add_task("t".to_string());
    let m = &uni.menu()[0].first[0].moments[0];
    assert_eq!(m.grade, Grade::Completed(true));
    assert_eq!(m.code, "X");
    assert_eq!(m.description, "exam");
    uni.cursor_enter();
    uni.toggle_selected_task();
    let t = uni.menu()[0].first[0].moments[0].tasks.as_ref().unwrap();
    assert!(t.get(0).unwrap().completed);
}

#[test]
fn edits_without_target_change_nothing() {
    let mut uni = UniInfo::new(Vec::new());
    uni.add_course("A".to_string(), Grade::Ongoing, "a".to_string());
    uni.add_moment("m".to_string(), Grade::Ongoing, 1000, "d".to_string());
    uni.add_task("t".to_string());
    uni.set_course_grade(Grade::Grade(5));
    uni.toggle_selected_task();
    uni.delete_entry();
    assert_eq!(uni.menu().len(), 0);
}

#[test]
fn tasks_stay_sorted_and_unique() {
    let mut t = Tasks::new();
    assert!(t.is_empty());
    t.insert("b".to_string());
    t.insert("a".to_string());
    t.insert("c".to_string());
    t.toggle(1);
    assert!(t.get(1).unwrap().completed);
    t.insert("b".to_string());
    assert_eq!(t.len(), 3);
    assert_eq!(t.get(0).unwrap().name, "a");
    assert_eq!(t.get(1).unwrap().name, "b");
    assert!(!t.get(1).unwrap().completed);
    assert_eq!(t.get(2).unwrap().name, "c");
    assert!(t.get(3).is_none());
    t.remove(0);
    assert_eq!(t.get(0).unwrap().name, "b");
}

#[test]
fn task_order_is_byte_order() {
    let mut t = Tasks::new();
    t.insert("ab".to_string());
    t.insert("a".to_string());
    t.insert("B".to_string());
    t.insert("\u{e9}".to_string());
    assert_eq!(t.get(0).unwrap().name, "B");
    assert_eq!(t.get(1).unwrap().name, "a");
    assert_eq!(t.get(2).unwrap().name, "ab");
    assert_eq!(t.get(3).unwrap().name, "\u{e9}");
}

#[test]
fn credit_sums_of_a_course() {
    let c = course(
        "A",
        Grade::Ongoing,
        vec![moment("1", Grade::Completed(true), 3000), moment("2", Grade::Grade(4), 2000), moment("3", Grade::Ongoing, 1500)],
    );
    assert_eq!(c.sum_credits(), 5000);
    assert_eq!(c.max_credits(), 6500);
}

#[test]
fn failed_moment_does_not_accrue() {
    let c = course("A", Grade::Ongoing, vec![moment("1", Grade::Completed(false), 3000), moment("2", Grade::Traditional('B'), 1000)]);
    assert_eq!(c.sum_credits(), 1000);
    assert_eq!(c.max_credits(), 4000);
}

#[test]
fn credit_sums_stop_at_the_largest_value() {
    let c = course("A", Grade::Ongoing, vec![moment("1", Grade::Grade(3), u64::MAX), moment("2", Grade::Grade(3), 5)]);
    assert_eq!(c.max_credits(), u64::MAX);
}

#[test]
fn average_of_three_marks_ignores_ongoing() {
    let courses = vec![
        course("A", Grade::Grade(3), Vec::new()),
        course("B", Grade::Grade(4), Vec::new()),
        course("C", Grade::Grade(5), Vec::new()),
        course("D", Grade::Ongoing, Vec::new()),
    ];
    let p = Progress::of_courses(&courses);
    assert_eq!(p.marks, 3);
    assert_eq!(p.average(), Some(4000));
}

#[test]
fn average_with_letters() {
    let courses = vec![course("A", Grade::Traditional('B'), Vec::new()), course("B", Grade::Traditional('E'), Vec::new())];
    let p = Progress::of_courses(&courses);
    assert_eq!(p.mark_sum, 15);
    assert_eq!(p.average(), Some(3750));
}

#[test]
fn average_rounds_to_three_decimals() {
    let courses = vec![
        course("A", Grade::Grade(4), Vec::new()),
        course("B", Grade::Grade(4), Vec::new()),
        course("C", Grade::Grade(5), Vec::new()),
    ];
    assert_eq!(Progress::of_courses(&courses).average(), Some(4333));
}

#[test]
fn no_marks_no_average() {
    let courses = vec![course("A", Grade::Completed(true), Vec::new()), course("B", Grade::Ongoing, Vec::new())];
    let p = Progress::of_courses(&courses);
    assert_eq!(p.marks, 0);
    assert_eq!(p.average(), None);
}
