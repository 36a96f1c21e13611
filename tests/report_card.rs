use report_card::decimal::format_fraction;
use report_card::grading::{grade_for, Fraction, Grade, Student, SubjectMarks};
use report_card::layout::{report_card_path_for, DrawOp, Layout, Shade, Stroke};
use report_card::text::{format_score, padded};

fn marks(name: &str, a: i32, b: i32, c: i32, d: i32) -> SubjectMarks {
    SubjectMarks {
        subject_name: name.to_string(),
        first_term: a,
        second_term: b,
        third_term: c,
        final_term: d,
    }
}

const SUBJECTS: [&str; 7] = ["English", "Maths", "Science", "Art", "Reading", "Writing", "History"];

fn student(name: &str, scores: Option<(i32, i32, i32, i32)>) -> Student {
    let subjects = match scores {
        Some((a, b, c, d)) => SUBJECTS.iter().map(|s| marks(s, a, b, c, d)).collect(),
        None => Vec::new(),
    };
    Student::new(
        name.to_string(),
        "10A".to_string(),
        "Alpha".to_string(),
        subjects,
        "Keep it up.".to_string(),
    )
}

fn frac(num: i128, den: u128) -> Option<Fraction> {
    Some(Fraction { num, den })
}

fn texts(ops: &[DrawOp]) -> Vec<String> {
    ops.iter()
        .filter_map(|o| match o {
            DrawOp::Text { text, .. } => Some(text.clone()),
            _ => None,
        })
        .collect()
}

#[test]
fn grade_boundaries() {
    assert_eq!(grade_for(frac(90, 1)), Grade::A);
    assert_eq!(grade_for(frac(89999, 1000)), Grade::B);
    assert_eq!(grade_for(frac(75, 1)), Grade::B);
    assert_eq!(grade_for(frac(74999, 1000)), Grade::C);
    assert_eq!(grade_for(frac(60, 1)), Grade::C);
    assert_eq!(grade_for(frac(59999, 1000)), Grade::D);
    assert_eq!(grade_for(frac(-5, 1)), Grade::D);
    assert_eq!(grade_for(None), Grade::NoData);
    assert_eq!(student("Nobody", None).assign_grade(), Grade::NoData);
}

#[test]
fn grade_labels() {
    assert_eq!(Grade::A.label(), "A");
    assert_eq!(Grade::D.label(), "D");
    assert_eq!(Grade::NoData.label(), "N/A (No subjects)");
}

#[test]
fn fraction_new_checks_bounds() {
    assert_eq!(Fraction::new(3, 4), Some(Fraction { num: 3, den: 4 }));
    assert_eq!(Fraction::new(3, 0), None);
    assert_eq!(Fraction::new(i128::MAX, 4), None);
}

#[test]
fn scenario_grade_a() {
    let st = student("Excellent Emily", Some((9500, 9200, 9800, 9300)));
    let avg = st.subjects[0].calculate_subject_average();
    assert_eq!(avg, Fraction { num: 37800, den: 400 });
    assert_eq!(format_fraction(avg), "94.50");
    let overall = st.calculate_overall_average().unwrap();
    assert_eq!(overall, Fraction { num: 7 * 37800, den: 2800 });
    assert_eq!(format_fraction(overall), "94.50");
    assert_eq!(st.assign_grade(), Grade::A);
}

#[test]
fn scenario_grade_c() {
    let st = student("Average Alex", Some((6500, 6000, 7000, 6800)));
    assert_eq!(format_fraction(st.subjects[3].calculate_subject_average()), "65.75");
    assert_eq!(format_fraction(st.calculate_overall_average().unwrap()), "65.75");
    assert_eq!(st.assign_grade(), Grade::C);
}

#[test]
fn scenario_grades_b_and_d() {
    assert_eq!(student("Bright Ben", Some((8000, 7800, 8500, 8200))).assign_grade(), Grade::B);
    assert_eq!(student("Developing David", Some((5000, 4500, 5500, 5200))).assign_grade(), Grade::D);
}

#[test]
fn scenario_no_subjects() {
    let st = student("New Nora", None);
    assert_eq!(st.calculate_overall_average(), None);
    assert_eq!(st.assign_grade(), Grade::NoData);
    assert_eq!(st.calculate_total_marks(), Fraction { num: 0, den: 400 });
    assert_eq!(format_fraction(st.calculate_total_marks()), "0.00");
    let page = st.report_card_page();
    assert_eq!(page.title, "New Nora Report Card");
    assert_eq!((page.width, page.height), (210, 297));
    let t = texts(&page.ops);
    assert!(t.contains(&"Grade: N/A (No subjects)".to_string()));
    assert!(t.contains(&"Total Marks: 0.00".to_string()));
    let lines = st.report_card_lines();
    assert!(lines.contains(&"  Overall Average: N/A".to_string()));
}

#[test]
fn output_path_from_name() {
    assert_eq!(student("Bright Ben", None).report_card_path(), "report_cards/Bright_Ben_report_card.pdf");
    assert_eq!(report_card_path_for(&"a b  c".to_string()), "report_cards/a_b__c_report_card.pdf");
    assert_eq!(report_card_path_for(&String::new()), "report_cards/_report_card.pdf");
}

#[test]
fn overall_is_mean_of_subject_averages() {
    let st = Student::new(
        "Mixed Max".to_string(),
        "9".to_string(),
        "B".to_string(),
        vec![marks("Art", 9500, 9200, 9800, 9300), marks("Maths", 6500, 6000, 7000, 6800)],
        String::new(),
    );
    let overall = st.calculate_overall_average().unwrap();
    // (94.5 + 65.75) / 2 = 80.125
    assert_eq!(overall.num * 1000, 80125 * overall.den as i128);
    assert_eq!(format_fraction(overall), "80.13");
    assert_eq!(st.assign_grade(), Grade::B);
}

#[test]
fn total_is_sum_of_subject_averages() {
    let st = Student::new(
        "Mixed Max".to_string(),
        "9".to_string(),
        "B".to_string(),
        vec![marks("Art", 9500, 9200, 9800, 9300), marks("Maths", 6500, 6000, 7000, 6800)],
        String::new(),
    );
    assert_eq!(format_fraction(st.calculate_total_marks()), "160.25");
    let seven = student("Emily", Some((9500, 9200, 9800, 9300)));
    assert_eq!(format_fraction(seven.calculate_total_marks()), "661.50");
}

#[test]
fn derived_values_are_stable() {
    let st = student("Bright Ben", Some((8000, 7800, 8500, 8200)));
    assert_eq!(st.calculate_total_marks(), st.calculate_total_marks());
    assert_eq!(st.calculate_overall_average(), st.calculate_overall_average());
    assert_eq!(st.assign_grade(), st.assign_grade());
    assert_eq!(st.report_card_lines(), st.report_card_lines());
}

#[test]
fn two_decimal_formatting() {
    assert_eq!(format_score(9500), "95.00");
    assert_eq!(format_score(7), "0.07");
    assert_eq!(format_score(-1234), "-12.34");
    assert_eq!(format_fraction(Fraction { num: 1, den: 3 }), "0.33");
    assert_eq!(format_fraction(Fraction { num: 2, den: 3 }), "0.67");
    assert_eq!(format_fraction(Fraction { num: 1, den: 200 }), "0.01");
    assert_eq!(format_fraction(Fraction { num: -1, den: 1000 }), "0.00");
    assert_eq!(format_fraction(Fraction { num: 12345678, den: 1 }), "12345678.00");
}

#[test]
fn padding_to_width() {
    assert_eq!(padded(&"Art".to_string(), 10), "Art       ");
    assert_eq!(padded(&"Mathematics".to_string(), 10), "Mathematics");
    assert_eq!(padded(&String::new(), 2), "  ");
}

#[test]
fn text_block() {
    let st = Student::new(
        "Ann Lee".to_string(),
        "10B".to_string(),
        "Beta".to_string(),
        vec![marks("Art", 8000, 7800, 8500, 8200)],
        "Good.".to_string(),
    );
    let lines = st.report_card_lines();
    let expected = vec![
        "",
        "--- Student Report Card ---",
        "  Student Name: Ann Lee",
        "  Class: 10B Section: Beta",
        "",
        "  Subjects:",
        "    Art       : 1st Term: 80.00, 2nd Term: 78.00, 3rd Term: 85.00, Final Term: 82.00, Avg: 81.25",
        "",
        "  Total Marks: 81.25",
        "  Overall Average: 81.25",
        "  Grade: B",
        "  Comment: Good.",
        "---------------------------",
        "",
    ];
    assert_eq!(lines, expected);
}

#[test]
fn page_layout_positions() {
    let st = student("Bright Ben", Some((8000, 7800, 8500, 8200)));
    let page = st.report_card_page();
    assert_eq!(page.ops.len(), 25 + 7 * 7);
    assert_eq!(
        page.ops[0],
        DrawOp::Text { text: "School Name".to_string(), size: 24, x: 80, y: 270 }
    );
    assert_eq!(
        page.ops[2],
        DrawOp::Rect {
            x: 15,
            y: 200,
            width: 180,
            height: 35,
            fill: Shade::LightGray,
            outline: Shade::Black,
            stroke: Stroke::Medium,
        }
    );
    assert_eq!(page.ops[7], DrawOp::TextColor(Shade::White));
    // The first row sits under the header, at cursor 180.
    assert_eq!(
        page.ops[14],
        DrawOp::Rect {
            x: 15,
            y: 170,
            width: 180,
            height: 10,
            fill: Shade::White,
            outline: Shade::Black,
            stroke: Stroke::Hairline,
        }
    );
    assert_eq!(
        page.ops[17],
        DrawOp::Text { text: "80.00".to_string(), size: 12, x: 60, y: 175 }
    );
    // Seven rows end at 110; one more gap puts the totals bar at cursor 100.
    assert_eq!(
        page.ops[63],
        DrawOp::Rect {
            x: 15,
            y: 90,
            width: 180,
            height: 10,
            fill: Shade::LightGray,
            outline: Shade::Black,
            stroke: Stroke::Hairline,
        }
    );
    assert_eq!(
        page.ops[65],
        DrawOp::Text { text: "Total Marks: 568.75".to_string(), size: 12, x: 20, y: 95 }
    );
    assert_eq!(
        page.ops[66],
        DrawOp::Text { text: "Grade: B".to_string(), size: 12, x: 120, y: 95 }
    );
    assert_eq!(
        page.ops[71],
        DrawOp::Text {
            text: "Teacher's Signature: __________________".to_string(),
            size: 12,
            x: 100,
            y: 35,
        }
    );
    assert_eq!(
        page.ops[73],
        DrawOp::Text {
            text: "Principal Signature: ___________________".to_string(),
            size: 12,
            x: 100,
            y: 15,
        }
    );
}

#[test]
fn layout_steps_move_the_cursor() {
    let mut l = Layout::new();
    assert_eq!(l.cursor, 270);
    l.title_block();
    assert_eq!(l.cursor, 230);
    l.table_header();
    assert_eq!(l.cursor, 220);
    l.subject_rows(&vec![]);
    assert_eq!(l.cursor, 210);
    assert_eq!(l.ops.len(), 2 + 7 + 1);
    l.comment_box(&"c".to_string());
    assert_eq!(l.cursor, 160);
}
