use candidate_viewer::element::{
    BulletListElement, Drawable, Element, ExpandableSectionElement, ExperienceListElement,
    SkillListElement, TitleElement,
};
use candidate_viewer::geometry::{Point, Rectangle};
use candidate_viewer::model::{
    EducationExperience, Experience, ExperienceKind, PersonalInformation, Skill, WorkExperience,
};
use candidate_viewer::surface::{Color, DrawCommand};

fn pt(x: i64, y: i64) -> Point {
    Point { x, y }
}

fn texts(cmds: &[DrawCommand]) -> Vec<(String, i64, i64, i64, Color)> {
    let mut r = Vec::new();
    for c in cmds {
        if let DrawCommand::Text { text, x, y, font_size, color } = c {
            r.push((text.clone(), *x, *y, *font_size, *color));
        }
    }
    r
}

fn rects(cmds: &[DrawCommand]) -> Vec<(i64, i64, i64, i64, Color)> {
    let mut r = Vec::new();
    for c in cmds {
        if let DrawCommand::Rect { x, y, width, height, color } = c {
            r.push((*x, *y, *width, *height, *color));
        }
    }
    r
}

fn title() -> TitleElement {
    TitleElement {
        position: pt(20, 20),
        info: PersonalInformation {
            first_name: "Max".to_string(),
            last_name: "Mustermann".to_string(),
            job_title: "Engineer".to_string(),
        },
    }
}

fn bullets(n: usize) -> BulletListElement {
    BulletListElement {
        position: pt(0, 0),
        items: (0..n).map(|i| format!("Note {}", i + 1)).collect(),
    }
}

fn skill(name: &str, rating: u8) -> Skill {
    Skill { name: name.to_string(), rating }
}

fn skill_list(skills: Vec<Skill>) -> SkillListElement {
    SkillListElement { position: pt(10, 5), skills }
}

fn experiences() -> ExperienceListElement {
    ExperienceListElement {
        position: pt(30, 50),
        experiences: vec![
            Experience {
                from_year: "2012".to_string(),
                to_year: "2013".to_string(),
                kind: ExperienceKind::Education(EducationExperience {
                    school: "University 1".to_string(),
                    grade_tenths: 20,
                }),
            },
            Experience {
                from_year: "2013".to_string(),
                to_year: "2015".to_string(),
                kind: ExperienceKind::Work(WorkExperience { company: "Workplace 1".to_string() }),
            },
        ],
    }
}

#[test]
fn size_is_repeatable() {
    let t = title();
    assert_eq!(t.size(), t.size());
    let s = ExpandableSectionElement::new("Notes", 20, 20, Element::BulletList(bullets(3)));
    assert_eq!(s.size(), s.size());
    let e = Element::SkillList(skill_list(vec![skill("Rust", 8)]));
    assert_eq!(e.size(), e.size());
}

#[test]
fn title_has_fixed_size_and_two_lines() {
    let t = title();
    assert_eq!(t.size(), Rectangle { x: 20, y: 20, width: 600, height: 54 });
    let mut out = Vec::new();
    t.draw(&mut out);
    assert_eq!(out.len(), 2);
    assert_eq!(
        texts(&out),
        vec![
            ("Max Mustermann".to_string(), 20, 20, 36, Color::Black),
            ("Engineer".to_string(), 20, 50, 24, Color::Black),
        ]
    );
}

#[test]
fn list_heights_follow_row_count() {
    assert_eq!(bullets(3).size().height, 60);
    assert_eq!(experiences().size().height, 40);
    let skills = skill_list(vec![skill("CSS", 5), skill("Rust", 9), skill("Go", 2)]);
    assert_eq!(skills.size(), Rectangle { x: 10, y: 5, width: 600, height: 66 });
}

#[test]
fn empty_lists_have_zero_height_and_draw_nothing() {
    let b = bullets(0);
    assert_eq!(b.size(), Rectangle { x: 0, y: 0, width: 600, height: 0 });
    let mut out = Vec::new();
    b.draw(&mut out);
    skill_list(vec![]).draw(&mut out);
    ExperienceListElement { position: pt(3, 4), experiences: vec![] }.draw(&mut out);
    assert!(out.is_empty());
}

#[test]
fn bullet_rows_draw_glyph_and_text() {
    let mut b = bullets(2);
    b.set_position(pt(10, 100));
    let mut out = Vec::new();
    b.draw(&mut out);
    assert_eq!(out.len(), 4);
    assert_eq!(
        rects(&out),
        vec![(10, 107, 10, 5, Color::Black), (10, 127, 10, 5, Color::Black)]
    );
    assert_eq!(
        texts(&out),
        vec![
            ("Note 1".to_string(), 30, 100, 20, Color::Black),
            ("Note 2".to_string(), 30, 120, 20, Color::Black),
        ]
    );
}

#[test]
fn experience_rows_tag_education_and_work() {
    let mut out = Vec::new();
    experiences().draw(&mut out);
    assert_eq!(
        texts(&out),
        vec![
            ("2012-2013".to_string(), 30, 50, 20, Color::Black),
            ("EDU".to_string(), 140, 50, 20, Color::Green),
            ("University 1 (2.0)".to_string(), 210, 50, 20, Color::Black),
            ("2013-2015".to_string(), 30, 70, 20, Color::Black),
            ("WORK".to_string(), 140, 70, 20, Color::Blue),
            ("Workplace 1".to_string(), 210, 70, 20, Color::Black),
        ]
    );
    assert!(rects(&out).is_empty());
}

#[test]
fn skill_rating_five_draws_five_yellow_squares() {
    let list = skill_list(vec![skill("CSS", 5)]);
    let mut out = Vec::new();
    list.draw(&mut out);
    assert_eq!(texts(&out), vec![("CSS".to_string(), 10, 5, 20, Color::Black)]);
    let squares = rects(&out);
    assert_eq!(squares.len(), 5);
    let offsets: Vec<i64> = squares.iter().map(|s| s.0 - 10).collect();
    assert_eq!(offsets, vec![200, 222, 244, 266, 288]);
    for s in &squares {
        assert_eq!((s.1, s.2, s.3, s.4), (5, 20, 20, Color::Yellow));
    }
}

#[test]
fn skill_rating_nine_green_and_fifteen_clamped() {
    let list = skill_list(vec![skill("Rust", 9), skill("Go", 15)]);
    let mut out = Vec::new();
    list.draw(&mut out);
    let squares = rects(&out);
    assert_eq!(squares.len(), 19);
    let first: Vec<_> = squares.iter().filter(|s| s.1 == 5).collect();
    let second: Vec<_> = squares.iter().filter(|s| s.1 == 27).collect();
    assert_eq!(first.len(), 9);
    assert_eq!(second.len(), 10);
    assert!(squares.iter().all(|s| s.4 == Color::Green));
    assert_eq!(second[9].0, 10 + 200 + 9 * 22);
}

#[test]
fn skill_rating_bands() {
    let list = skill_list(vec![skill("A", 0), skill("B", 3), skill("C", 4), skill("D", 7), skill("E", 8)]);
    let mut out = Vec::new();
    list.draw(&mut out);
    let squares = rects(&out);
    assert_eq!(squares.len(), 3 + 4 + 7 + 8);
    assert!(squares[..3].iter().all(|s| s.4 == Color::Red && s.1 == 27));
    assert!(squares[3..7].iter().all(|s| s.4 == Color::Yellow && s.1 == 49));
    assert!(squares[7..14].iter().all(|s| s.4 == Color::Yellow && s.1 == 71));
    assert!(squares[14..].iter().all(|s| s.4 == Color::Green && s.1 == 93));
    let names = texts(&out);
    assert_eq!(names.len(), 5);
    assert_eq!(names[4], ("E".to_string(), 10, 93, 20, Color::Black));
}

#[test]
fn closed_section_height_ignores_content() {
    let small = ExpandableSectionElement::new("A", 20, 20, Element::BulletList(bullets(1)));
    let large = ExpandableSectionElement::new("B", 20, 20, Element::BulletList(bullets(40)));
    assert_eq!(small.size(), Rectangle { x: 20, y: 20, width: 760, height: 24 });
    assert_eq!(large.size().height, 24);
}

#[test]
fn toggle_twice_restores_state() {
    let mut s = ExpandableSectionElement::new("A", 0, 0, Element::BulletList(bullets(2)));
    assert!(!s.is_open);
    s.toggle();
    assert!(s.is_open);
    s.toggle();
    assert!(!s.is_open);
}

#[test]
fn open_section_adds_content_and_padding() {
    let mut s = ExpandableSectionElement::new("Notes", 20, 20, Element::BulletList(bullets(2)));
    assert_eq!(s.size().height, 24);
    s.toggle();
    assert_eq!(s.size(), Rectangle { x: 20, y: 20, width: 760, height: 74 });
}

#[test]
fn section_places_content_at_nested_offset() {
    let mut s = ExpandableSectionElement::new("Notes", 20, 20, Element::BulletList(bullets(1)));
    assert_eq!(s.content.size().x, 30);
    assert_eq!(s.content.size().y, 50);
    s.set_position(pt(100, 200));
    assert_eq!(s.position, pt(100, 200));
    assert_eq!(s.content.size().x, 110);
    assert_eq!(s.content.size().y, 230);
}

#[test]
fn nested_sections_move_together() {
    let inner = ExpandableSectionElement::new("Inner", 0, 0, Element::BulletList(bullets(1)));
    let mut outer = Element::ExpandableSection(ExpandableSectionElement::new(
        "Outer",
        0,
        0,
        Element::ExpandableSection(inner),
    ));
    outer.set_position(pt(5, 7));
    if let Element::ExpandableSection(o) = &outer {
        assert_eq!(o.content.size().x, 15);
        assert_eq!(o.content.size().y, 37);
        if let Element::ExpandableSection(i) = &*o.content {
            assert_eq!(i.content.size().x, 25);
            assert_eq!(i.content.size().y, 67);
        } else {
            panic!("inner section expected");
        }
    } else {
        panic!("outer section expected");
    }
}

#[test]
fn section_draws_header_then_open_content() {
    let mut s = ExpandableSectionElement::new("Skills", 20, 99, Element::BulletList(bullets(2)));
    let mut closed = Vec::new();
    s.draw(&mut closed);
    assert_eq!(rects(&closed), vec![(20, 99, 760, 24, Color::Gray)]);
    assert_eq!(texts(&closed), vec![("Skills".to_string(), 20, 99, 24, Color::Black)]);
    s.toggle();
    let mut open = Vec::new();
    s.draw(&mut open);
    assert_eq!(open.len(), 3 + 4);
    assert_eq!(
        rects(&open)[..3].to_vec(),
        vec![
            (20, 99, 760, 24, Color::Gray),
            (20, 123, 760, 50, Color::LightGray),
            (30, 136, 10, 5, Color::Black),
        ]
    );
    assert_eq!(texts(&open)[1], ("Note 1".to_string(), 50, 129, 20, Color::Black));
}

#[test]
fn is_inside_includes_corners_and_excludes_outside() {
    let s = ExpandableSectionElement::new("A", 20, 99, Element::BulletList(bullets(2)));
    for p in [pt(20, 99), pt(780, 99), pt(20, 123), pt(780, 123), pt(400, 110)] {
        assert!(s.is_inside(p));
    }
    for p in [pt(19, 99), pt(781, 99), pt(20, 98), pt(20, 124)] {
        assert!(!s.is_inside(p));
    }
}

#[test]
fn is_inside_follows_open_size() {
    let mut s = ExpandableSectionElement::new("A", 20, 99, Element::BulletList(bullets(2)));
    assert!(!s.is_inside(pt(20, 173)));
    s.toggle();
    assert!(s.is_inside(pt(20, 173)));
    assert!(!s.is_inside(pt(20, 174)));
}
