use vstd::prelude::*;
use vstd::string::*;

use crate::geometry::{contains, rect_contains, Point, Rectangle};
use crate::model::{Experience, ExperienceKind, PersonalInformation, Skill};
use crate::surface::{emit, ops, Color, DrawCommand, DrawOp};
use crate::text::{grade_string, grade_text};

verus! {

/// Largest coordinate magnitude an element may be placed at.
pub const COORD_LIMIT: i64 = 1_099_511_627_776;

/// Largest number of rows a list element may hold.
pub const ROW_LIMIT: u64 = 4_294_967_296;

/// Largest height an element may report.
pub const HEIGHT_LIMIT: i64 = 4_398_046_511_104;

/// Width reported by titles and lists.
pub const CONTENT_WIDTH: i64 = 600;

/// Height of a title: two lines of text.
pub const TITLE_HEIGHT: i64 = 54;

/// Row height of bullet lists and experience lists.
pub const TEXT_ROW_HEIGHT: i64 = 20;

/// Row height of skill lists.
pub const SKILL_ROW_HEIGHT: i64 = 22;

/// Width of an expandable section.
pub const SECTION_WIDTH: i64 = 760;

/// Height of an expandable section's header bar.
pub const HEADER_HEIGHT: i64 = 24;

/// Margin below the content of an open section.
pub const CONTENT_PADDING: i64 = 10;

/// Whether a point lies within the coordinate range elements are placed in.
pub open spec fn on_screen(p: Point) -> bool {
    -COORD_LIMIT <= p.x <= COORD_LIMIT && -COORD_LIMIT <= p.y <= COORD_LIMIT
}

/// Where a section places its content, relative to its own position.
pub open spec fn child_point(p: Point) -> Point {
    Point { x: (p.x + 10) as i64, y: (p.y + 30) as i64 }
}

/// Text operation at `(x, y)`.
pub open spec fn text_op(text: Seq<char>, x: int, y: int, font_size: int, color: Color) -> DrawOp {
    DrawOp::Text { text, x, y, font_size, color }
}

/// Filled rectangle operation.
pub open spec fn rect_op(x: int, y: int, width: int, height: int, color: Color) -> DrawOp {
    DrawOp::Rect { x, y, width, height, color }
}

/// A positionable, sizeable, drawable part of the view.
pub trait Drawable: Sized {
    /// Whether coordinates and extent stay within the ranges the element's arithmetic handles.
    spec fn fits(&self) -> bool;

    /// The box the element occupies at its current position.
    spec fn spec_size(&self) -> Rectangle;

    /// The operations that drawing the element performs, in order.
    spec fn spec_ops(&self) -> Seq<DrawOp>;

    /// Whether the element and everything it places can be moved to `p`.
    spec fn placeable(&self, p: Point) -> bool;

    /// The element moved to `p`, its nested content moved along.
    spec fn placed(&self, p: Point) -> Self;

    /// Appends the element's drawing operations to `out`.
    fn draw(&self, out: &mut Vec<DrawCommand>)
        requires
            self.fits(),
        ensures
            ops(final(out)@) == ops(old(out)@) + self.spec_ops(),
    ;

    /// The box the element occupies; a function of the element alone.
    fn size(&self) -> (r: Rectangle)
        requires
            self.fits(),
        ensures
            r == self.spec_size(),
    ;

    /// Moves the element (and what it nests) so that its corner is at `position`.
    fn set_position(&mut self, position: Point)
        requires
            old(self).fits(),
            old(self).placeable(position),
        ensures
            *final(self) == old(self).placed(position),
            final(self).fits(),
            final(self).spec_size() == (Rectangle {
                x: position.x,
                y: position.y,
                ..old(self).spec_size()
            }),
    ;
}

/// The candidate's name over their job title.
pub struct TitleElement {
    pub position: Point,
    pub info: PersonalInformation,
}

impl Drawable for TitleElement {
    open spec fn fits(&self) -> bool {
        on_screen(self.position)
    }

    open spec fn spec_size(&self) -> Rectangle {
        Rectangle {
            x: self.position.x,
            y: self.position.y,
            width: CONTENT_WIDTH,
            height: TITLE_HEIGHT,
        }
    }

    open spec fn spec_ops(&self) -> Seq<DrawOp> {
        let x = self.position.x as int;
        let y = self.position.y as int;
        seq![
            text_op(self.info.first_name@ + seq![' '] + self.info.last_name@, x, y, 36, Color::Black),
            text_op(self.info.job_title@, x, y + 30, 24, Color::Black),
        ]
    }

    open spec fn placeable(&self, p: Point) -> bool {
        on_screen(p)
    }

    open spec fn placed(&self, p: Point) -> Self {
        TitleElement { position: p, info: self.info }
    }

    fn draw(&self, out: &mut Vec<DrawCommand>) {
        let ghost start = ops(out@);
        let x = self.position.x;
        let y = self.position.y;
        let mut full_name = self.info.first_name.clone();
        proof { reveal_strlit(" "); }
        full_name.append(" ");
        full_name.append(self.info.last_name.as_str());
        assert(full_name@ =~= self.info.first_name@ + seq![' '] + self.info.last_name@);
        emit(out, DrawCommand::Text { text: full_name, x, y, font_size: 36, color: Color::Black });
        emit(
            out,
            DrawCommand::Text {
                text: self.info.job_title.clone(),
                x,
                y: y + 30,
                font_size: 24,
                color: Color::Black,
            },
        );
        assert(ops(out@) =~= start + self.spec_ops());
    }

    fn size(&self) -> (r: Rectangle) {
        Rectangle {
            x: self.position.x,
            y: self.position.y,
            width: CONTENT_WIDTH,
            height: TITLE_HEIGHT,
        }
    }

    fn set_position(&mut self, position: Point) {
        self.position = position;
    }
}

/// The two operations of one bullet row: the bullet glyph, then the text.
pub open spec fn bullet_row(item: Seq<char>, x: int, y: int) -> Seq<DrawOp> {
    seq![rect_op(x, y + 7, 10, 5, Color::Black), text_op(item, x + 20, y, 20, Color::Black)]
}

/// The operations of a bullet list with corner `(x, y)`, row by row.
pub open spec fn bullet_ops(items: Seq<String>, x: int, y: int) -> Seq<DrawOp>
    decreases items.len(),
{
    if items.len() == 0 {
        seq![]
    } else {
        bullet_ops(items.drop_last(), x, y) + bullet_row(
            items.last()@,
            x,
            y + TEXT_ROW_HEIGHT * (items.len() - 1),
        )
    }
}

/// A list of lines, each behind a small bullet.
pub struct BulletListElement {
    pub position: Point,
    pub items: Vec<String>,
}

impl Drawable for BulletListElement {
    open spec fn fits(&self) -> bool {
        on_screen(self.position) && self.items@.len() <= ROW_LIMIT
    }

    open spec fn spec_size(&self) -> Rectangle {
        Rectangle {
            x: self.position.x,
            y: self.position.y,
            width: CONTENT_WIDTH,
            height: (self.items@.len() * TEXT_ROW_HEIGHT) as i64,
        }
    }

    open spec fn spec_ops(&self) -> Seq<DrawOp> {
        bullet_ops(self.items@, self.position.x as int, self.position.y as int)
    }

    open spec fn placeable(&self, p: Point) -> bool {
        on_screen(p)
    }

    open spec fn placed(&self, p: Point) -> Self {
        BulletListElement { position: p, items: self.items }
    }

    fn draw(&self, out: &mut Vec<DrawCommand>) {
        let ghost start = ops(out@);
        let x = self.position.x;
        let y = self.position.y;
        let mut i: usize = 0;
        while i < self.items.len()
            invariant
                self.fits(),
                x == self.position.x,
                y == self.position.y,
                i <= self.items@.len(),
                ops(out@) == start + bullet_ops(self.items@.take(i as int), x as int, y as int),
            decreases self.items@.len() - i,
        {
            let offset_y = (i as i64) * TEXT_ROW_HEIGHT;
            emit(
                out,
                DrawCommand::Rect { x, y: y + offset_y + 7, width: 10, height: 5, color: Color::Black },
            );
            emit(
                out,
                DrawCommand::Text {
                    text: self.items[i].clone(),
                    x: x + 20,
                    y: y + offset_y,
                    font_size: 20,
                    color: Color::Black,
                },
            );
            assert(self.items@.take(i + 1).drop_last() =~= self.items@.take(i as int));
            i = i + 1;
            assert(ops(out@) =~= start + bullet_ops(self.items@.take(i as int), x as int, y as int));
        }
        assert(self.items@.take(i as int) =~= self.items@);
    }

    fn size(&self) -> (r: Rectangle) {
        Rectangle {
            x: self.position.x,
            y: self.position.y,
            width: CONTENT_WIDTH,
            height: (self.items.len() as i64) * TEXT_ROW_HEIGHT,
        }
    }

    fn set_position(&mut self, position: Point) {
        self.position = position;
    }
}

/// The years of an experience as `from-to`.
pub open spec fn time_frame(e: Experience) -> Seq<char> {
    e.from_year@ + seq!['-'] + e.to_year@
}

/// The operations of one experience row: the years, the kind tag and the detail.
pub open spec fn experience_row(e: Experience, x: int, y: int) -> Seq<DrawOp> {
    seq![text_op(time_frame(e), x, y, 20, Color::Black)] + match e.kind {
        ExperienceKind::Education(edu) => seq![
            text_op(seq!['E', 'D', 'U'], x + 110, y, 20, Color::Green),
            text_op(
                edu.school@ + seq![' ', '('] + grade_text(edu.grade_tenths as nat) + seq![')'],
                x + 180,
                y,
                20,
                Color::Black,
            ),
        ],
        ExperienceKind::Work(work) => seq![
            text_op(seq!['W', 'O', 'R', 'K'], x + 110, y, 20, Color::Blue),
            text_op(work.company@, x + 180, y, 20, Color::Black),
        ],
    }
}

/// The operations of an experience list with corner `(x, y)`, row by row.
pub open spec fn experience_ops(rows: Seq<Experience>, x: int, y: int) -> Seq<DrawOp>
    decreases rows.len(),
{
    if rows.len() == 0 {
        seq![]
    } else {
        experience_ops(rows.drop_last(), x, y) + experience_row(
            rows.last(),
            x,
            y + TEXT_ROW_HEIGHT * (rows.len() - 1),
        )
    }
}

fn draw_experience(e: &Experience, x: i64, y: i64, out: &mut Vec<DrawCommand>)
    requires
        -COORD_LIMIT <= x <= COORD_LIMIT,
        -2 * COORD_LIMIT <= y <= 2 * COORD_LIMIT,
    ensures
        ops(final(out)@) == ops(old(out)@) + experience_row(*e, x as int, y as int),
{
    let ghost start = ops(out@);
    let mut frame = e.from_year.clone();
    proof { reveal_strlit("-"); }
    frame.append("-");
    frame.append(e.to_year.as_str());
    assert(frame@ =~= time_frame(*e));
    emit(out, DrawCommand::Text { text: frame, x, y, font_size: 20, color: Color::Black });
    match &e.kind {
        ExperienceKind::Education(edu) => {
            proof { reveal_strlit("EDU"); }
            let tag = String::from_str("EDU");
            assert(tag@ =~= seq!['E', 'D', 'U']);
            emit(out, DrawCommand::Text { text: tag, x: x + 110, y, font_size: 20, color: Color::Green });
            let mut detail = edu.school.clone();
            proof { reveal_strlit(" ("); }
            detail.append(" (");
            let grade = grade_string(edu.grade_tenths);
            detail.append(grade.as_str());
            proof { reveal_strlit(")"); }
            detail.append(")");
            assert(detail@ =~= edu.school@ + seq![' ', '('] + grade_text(edu.grade_tenths as nat) + seq![')']);
            emit(out, DrawCommand::Text { text: detail, x: x + 180, y, font_size: 20, color: Color::Black });
        },
        ExperienceKind::Work(work) => {
            proof { reveal_strlit("WORK"); }
            let tag = String::from_str("WORK");
            assert(tag@ =~= seq!['W', 'O', 'R', 'K']);
            emit(out, DrawCommand::Text { text: tag, x: x + 110, y, font_size: 20, color: Color::Blue });
            emit(
                out,
                DrawCommand::Text { text: work.company.clone(), x: x + 180, y, font_size: 20, color: Color::Black },
            );
        },
    }
    assert(ops(out@) =~= start + experience_row(*e, x as int, y as int));
}

/// Experiences, one row each: years, an education or work tag, and the school or company.
pub struct ExperienceListElement {
    pub position: Point,
    pub experiences: Vec<Experience>,
}

impl Drawable for ExperienceListElement {
    open spec fn fits(&self) -> bool {
        on_screen(self.position) && self.experiences@.len() <= ROW_LIMIT
    }

    open spec fn spec_size(&self) -> Rectangle {
        Rectangle {
            x: self.position.x,
            y: self.position.y,
            width: CONTENT_WIDTH,
            height: (self.experiences@.len() * TEXT_ROW_HEIGHT) as i64,
        }
    }

    open spec fn spec_ops(&self) -> Seq<DrawOp> {
        experience_ops(self.experiences@, self.position.x as int, self.position.y as int)
    }

    open spec fn placeable(&self, p: Point) -> bool {
        on_screen(p)
    }

    open spec fn placed(&self, p: Point) -> Self {
        ExperienceListElement { position: p, experiences: self.experiences }
    }

    fn draw(&self, out: &mut Vec<DrawCommand>) {
        let ghost start = ops(out@);
        let x = self.position.x;
        let y = self.position.y;
        let mut i: usize = 0;
        while i < self.experiences.len()
            invariant
                self.fits(),
                x == self.position.x,
                y == self.position.y,
                i <= self.experiences@.len(),
                ops(out@) == start + experience_ops(
                    self.experiences@.take(i as int),
                    x as int,
                    y as int,
                ),
            decreases self.experiences@.len() - i,
        {
            let offset_y = (i as i64) * TEXT_ROW_HEIGHT;
            draw_experience(&self.experiences[i], x, y + offset_y, out);
            assert(self.experiences@.take(i + 1).drop_last() =~= self.experiences@.take(i as int));
            i = i + 1;
            assert(ops(out@) =~= start + experience_ops(
                self.experiences@.take(i as int),
                x as int,
                y as int,
            ));
        }
        assert(self.experiences@.take(i as int) =~= self.experiences@);
    }

    fn size(&self) -> (r: Rectangle) {
        Rectangle {
            x: self.position.x,
            y: self.position.y,
            width: CONTENT_WIDTH,
            height: (self.experiences.len() as i64) * TEXT_ROW_HEIGHT,
        }
    }

    fn set_position(&mut self, position: Point) {
        self.position = position;
    }
}

/// The colour band of a rating: up to 3 red, up to 7 yellow, green above.
pub open spec fn rating_band(rating: u8) -> Color {
    if rating <= 3 {
        Color::Red
    } else if rating <= 7 {
        Color::Yellow
    } else {
        Color::Green
    }
}

/// Number of rating squares drawn: the rating, capped at 10.
pub open spec fn square_count(rating: u8) -> nat {
    if rating < 10 {
        rating as nat
    } else {
        10
    }
}

/// The first `n` rating squares of a row at `(x, y)`, 22 pixels apart from column 200.
pub open spec fn squares(n: nat, x: int, y: int, color: Color) -> Seq<DrawOp> {
    Seq::new(n, |k: int| rect_op(x + 200 + 22 * k, y, 20, 20, color))
}

/// The operations of one skill row: its name, then its rating squares.
pub open spec fn skill_row(s: Skill, x: int, y: int) -> Seq<DrawOp> {
    seq![text_op(s.name@, x, y, 20, Color::Black)] + squares(
        square_count(s.rating),
        x,
        y,
        rating_band(s.rating),
    )
}

/// The operations of a skill list with corner `(x, y)`, row by row.
pub open spec fn skill_ops(rows: Seq<Skill>, x: int, y: int) -> Seq<DrawOp>
    decreases rows.len(),
{
    if rows.len() == 0 {
        seq![]
    } else {
        skill_ops(rows.drop_last(), x, y) + skill_row(
            rows.last(),
            x,
            y + SKILL_ROW_HEIGHT * (rows.len() - 1),
        )
    }
}

/// The colour of a rating's band.
pub fn rating_color(rating: u8) -> (c: Color)
    ensures
        c == rating_band(rating),
{
    if rating <= 3 {
        Color::Red
    } else if rating <= 7 {
        Color::Yellow
    } else {
        Color::Green
    }
}

fn draw_skill(s: &Skill, x: i64, y: i64, out: &mut Vec<DrawCommand>)
    requires
        -COORD_LIMIT <= x <= COORD_LIMIT,
        -2 * COORD_LIMIT <= y <= 2 * COORD_LIMIT,
    ensures
        ops(final(out)@) == ops(old(out)@) + skill_row(*s, x as int, y as int),
{
    let ghost start = ops(out@);
    emit(out, DrawCommand::Text { text: s.name.clone(), x, y, font_size: 20, color: Color::Black });
    let color = rating_color(s.rating);
    let count: u8 = if s.rating < 10 { s.rating } else { 10 };
    let mut k: u8 = 0;
    while k < count
        invariant
            -COORD_LIMIT <= x <= COORD_LIMIT,
            count == square_count(s.rating),
            color == rating_band(s.rating),
            k <= count,
            ops(out@) == start + seq![text_op(s.name@, x as int, y as int, 20, Color::Black)]
                + squares(k as nat, x as int, y as int, color),
        decreases count - k,
    {
        let offset_x = (k as i64) * 22;
        emit(out, DrawCommand::Rect { x: x + 200 + offset_x, y, width: 20, height: 20, color });
        assert(squares((k + 1) as nat, x as int, y as int, color) =~= squares(
            k as nat,
            x as int,
            y as int,
            color,
        ).push(rect_op(x + 200 + 22 * k, y as int, 20, 20, color)));
        k = k + 1;
        assert(ops(out@) =~= start + seq![text_op(s.name@, x as int, y as int, 20, Color::Black)]
            + squares(k as nat, x as int, y as int, color));
    }
}

/// Skills, one row each: the name and up to ten squares coloured by the rating's band.
pub struct SkillListElement {
    pub position: Point,
    pub skills: Vec<Skill>,
}

impl Drawable for SkillListElement {
    open spec fn fits(&self) -> bool {
        on_screen(self.position) && self.skills@.len() <= ROW_LIMIT
    }

    open spec fn spec_size(&self) -> Rectangle {
        Rectangle {
            x: self.position.x,
            y: self.position.y,
            width: CONTENT_WIDTH,
            height: (self.skills@.len() * SKILL_ROW_HEIGHT) as i64,
        }
    }

    open spec fn spec_ops(&self) -> Seq<DrawOp> {
        skill_ops(self.skills@, self.position.x as int, self.position.y as int)
    }

    open spec fn placeable(&self, p: Point) -> bool {
        on_screen(p)
    }

    open spec fn placed(&self, p: Point) -> Self {
        SkillListElement { position: p, skills: self.skills }
    }

    fn draw(&self, out: &mut Vec<DrawCommand>) {
        let ghost start = ops(out@);
        let x = self.position.x;
        let y = self.position.y;
        let mut i: usize = 0;
        while i < self.skills.len()
            invariant
                self.fits(),
                x == self.position.x,
                y == self.position.y,
                i <= self.skills@.len(),
                ops(out@) == start + skill_ops(self.skills@.take(i as int), x as int, y as int),
            decreases self.skills@.len() - i,
        {
            let offset_y = (i as i64) * SKILL_ROW_HEIGHT;
            draw_skill(&self.skills[i], x, y + offset_y, out);
            assert(self.skills@.take(i + 1).drop_last() =~= self.skills@.take(i as int));
            i = i + 1;
            assert(ops(out@) =~= start + skill_ops(self.skills@.take(i as int), x as int, y as int));
        }
        assert(self.skills@.take(i as int) =~= self.skills@);
    }

    fn size(&self) -> (r: Rectangle) {
        Rectangle {
            x: self.position.x,
            y: self.position.y,
            width: CONTENT_WIDTH,
            height: (self.skills.len() as i64) * SKILL_ROW_HEIGHT,
        }
    }

    fn set_position(&mut self, position: Point) {
        self.position = position;
    }
}

/// A view element: one of the fixed set of leaves, or a section wrapping another element.
pub enum Element {
    Title(TitleElement),
    BulletList(BulletListElement),
    ExperienceList(ExperienceListElement),
    ExpandableSection(ExpandableSectionElement),
    SkillList(SkillListElement),
}

impl Drawable for Element {
    open spec fn fits(&self) -> bool
        decreases self, 1nat,
    {
        match self {
            Element::Title(el) => el.fits(),
            Element::BulletList(el) => el.fits(),
            Element::ExperienceList(el) => el.fits(),
            Element::ExpandableSection(el) => el.fits(),
            Element::SkillList(el) => el.fits(),
        }
    }

    open spec fn spec_size(&self) -> Rectangle
        decreases self, 1nat,
    {
        match self {
            Element::Title(el) => el.spec_size(),
            Element::BulletList(el) => el.spec_size(),
            Element::ExperienceList(el) => el.spec_size(),
            Element::ExpandableSection(el) => el.spec_size(),
            Element::SkillList(el) => el.spec_size(),
        }
    }

    open spec fn spec_ops(&self) -> Seq<DrawOp>
        decreases self, 1nat,
    {
        match self {
            Element::Title(el) => el.spec_ops(),
            Element::BulletList(el) => el.spec_ops(),
            Element::ExperienceList(el) => el.spec_ops(),
            Element::ExpandableSection(el) => el.spec_ops(),
            Element::SkillList(el) => el.spec_ops(),
        }
    }

    open spec fn placeable(&self, p: Point) -> bool
        decreases self, 1nat,
    {
        match self {
            Element::Title(el) => el.placeable(p),
            Element::BulletList(el) => el.placeable(p),
            Element::ExperienceList(el) => el.placeable(p),
            Element::ExpandableSection(el) => el.placeable(p),
            Element::SkillList(el) => el.placeable(p),
        }
    }

    open spec fn placed(&self, p: Point) -> Self
        decreases self, 1nat,
    {
        match self {
            Element::Title(el) => Element::Title(el.placed(p)),
            Element::BulletList(el) => Element::BulletList(el.placed(p)),
            Element::ExperienceList(el) => Element::ExperienceList(el.placed(p)),
            Element::ExpandableSection(el) => Element::ExpandableSection(el.placed(p)),
            Element::SkillList(el) => Element::SkillList(el.placed(p)),
        }
    }

    fn draw(&self, out: &mut Vec<DrawCommand>)
        decreases self, 1nat,
    {
        match self {
            Element::Title(el) => el.draw(out),
            Element::BulletList(el) => el.draw(out),
            Element::ExperienceList(el) => el.draw(out),
            Element::ExpandableSection(el) => el.draw(out),
            Element::SkillList(el) => el.draw(out),
        }
    }

    fn size(&self) -> (r: Rectangle)
        decreases self, 1nat,
    {
        match self {
            Element::Title(el) => el.size(),
            Element::BulletList(el) => el.size(),
            Element::ExperienceList(el) => el.size(),
            Element::ExpandableSection(el) => el.size(),
            Element::SkillList(el) => el.size(),
        }
    }

    fn set_position(&mut self, position: Point)
        decreases *old(self), 1nat,
    {
        match self {
            Element::Title(el) => el.set_position(position),
            Element::BulletList(el) => el.set_position(position),
            Element::ExperienceList(el) => el.set_position(position),
            Element::ExpandableSection(el) => el.set_position(position),
            Element::SkillList(el) => el.set_position(position),
        }
    }
}

/// A collapsible section: a header bar with a title, over one nested element shown only
/// while the section is open.
pub struct ExpandableSectionElement {
    pub position: Point,
    pub title: String,
    pub is_open: bool,
    pub content: Box<Element>,
}

impl ExpandableSectionElement {
    /// A closed section at `(x, y)` whose content is placed at its nested offset.
    pub fn new(title: &str, x: i64, y: i64, content: Element) -> (r: Self)
        requires
            on_screen(Point { x, y }),
            content.fits(),
            content.placeable(child_point(Point { x, y })),
            0 <= content.spec_size().height,
            content.spec_size().height + 34 <= HEIGHT_LIMIT,
        ensures
            r.position == (Point { x, y }),
            r.title@ == title@,
            !r.is_open,
            *r.content == content.placed(child_point(Point { x, y })),
            r.fits(),
    {
        let mut content = Box::new(content);
        content.set_position(Point { x: x + 10, y: y + 30 });
        ExpandableSectionElement {
            position: Point { x, y },
            title: String::from_str(title),
            is_open: false,
            content,
        }
    }

    /// The section with its open state flipped and all else kept.
    pub open spec fn toggled(&self) -> Self {
        ExpandableSectionElement {
            position: self.position,
            title: self.title,
            is_open: !self.is_open,
            content: self.content,
        }
    }

    /// Opens a closed section and closes an open one.
    pub fn toggle(&mut self)
        ensures
            *final(self) == old(self).toggled(),
    {
        self.is_open = !self.is_open;
    }

    /// Whether `position` lies in the section's current box, edges included.
    pub fn is_inside(&self, position: Point) -> (b: bool)
        requires
            self.fits(),
        ensures
            b == contains(self.spec_size(), position),
    {
        let bounding = self.size();
        rect_contains(bounding, position)
    }
}

impl Drawable for ExpandableSectionElement {
    open spec fn fits(&self) -> bool
        decreases self, 0nat,
    {
        on_screen(self.position) && self.content.fits() && 0 <= self.content.spec_size().height
            && self.content.spec_size().height + 34 <= HEIGHT_LIMIT
    }

    open spec fn spec_size(&self) -> Rectangle
        decreases self, 0nat,
    {
        Rectangle {
            x: self.position.x,
            y: self.position.y,
            width: SECTION_WIDTH,
            height: if self.is_open {
                (self.content.spec_size().height + CONTENT_PADDING + HEADER_HEIGHT) as i64
            } else {
                HEADER_HEIGHT
            },
        }
    }

    open spec fn spec_ops(&self) -> Seq<DrawOp>
        decreases self, 0nat,
    {
        let x = self.position.x as int;
        let y = self.position.y as int;
        let header = seq![
            rect_op(x, y, SECTION_WIDTH as int, HEADER_HEIGHT as int, Color::Gray),
            text_op(self.title@, x, y, 24, Color::Black),
        ];
        if self.is_open {
            header + seq![
                rect_op(
                    x,
                    y + HEADER_HEIGHT,
                    SECTION_WIDTH as int,
                    self.content.spec_size().height + CONTENT_PADDING,
                    Color::LightGray,
                ),
            ] + self.content.spec_ops()
        } else {
            header
        }
    }

    open spec fn placeable(&self, p: Point) -> bool
        decreases self, 0nat,
    {
        on_screen(p) && self.content.placeable(child_point(p))
    }

    open spec fn placed(&self, p: Point) -> Self
        decreases self, 0nat,
    {
        ExpandableSectionElement {
            position: p,
            title: self.title,
            is_open: self.is_open,
            content: Box::new(self.content.placed(child_point(p))),
        }
    }

    fn draw(&self, out: &mut Vec<DrawCommand>)
        decreases self, 0nat,
    {
        let ghost start = ops(out@);
        let x = self.position.x;
        let y = self.position.y;
        emit(
            out,
            DrawCommand::Rect { x, y, width: SECTION_WIDTH, height: HEADER_HEIGHT, color: Color::Gray },
        );
        emit(
            out,
            DrawCommand::Text { text: self.title.clone(), x, y, font_size: 24, color: Color::Black },
        );
        if self.is_open {
            let inner = self.content.size();
            emit(
                out,
                DrawCommand::Rect {
                    x,
                    y: y + HEADER_HEIGHT,
                    width: SECTION_WIDTH,
                    height: inner.height + CONTENT_PADDING,
                    color: Color::LightGray,
                },
            );
            let ghost mid = ops(out@);
            self.content.draw(out);
            assert(ops(out@) =~= start + self.spec_ops());
        } else {
            assert(ops(out@) =~= start + self.spec_ops());
        }
    }

    fn size(&self) -> (r: Rectangle)
        decreases self, 0nat,
    {
        if self.is_open {
            let inner = self.content.size();
            Rectangle {
                x: self.position.x,
                y: self.position.y,
                width: SECTION_WIDTH,
                height: inner.height + CONTENT_PADDING + HEADER_HEIGHT,
            }
        } else {
            Rectangle {
                x: self.position.x,
                y: self.position.y,
                width: SECTION_WIDTH,
                height: HEADER_HEIGHT,
            }
        }
    }

    fn set_position(&mut self, position: Point)
        decreases *old(self), 0nat,
    {
        self.position = position;
        self.content.set_position(Point { x: position.x + 10, y: position.y + 30 });
    }
}

/// Toggling twice gives back the section it started from.
pub proof fn lemma_toggle_involution(s: ExpandableSectionElement)
    ensures
        s.toggled().toggled() == s,
{
}

/// A closed section is as tall as its header, whatever it holds.
pub proof fn lemma_closed_height(s: ExpandableSectionElement)
    requires
        !s.is_open,
    ensures
        s.spec_size().height == HEADER_HEIGHT,
{
}

/// Opening a closed section makes it as tall as its header, its content and the padding.
pub proof fn lemma_open_height(s: ExpandableSectionElement)
    requires
        s.fits(),
        !s.is_open,
    ensures
        s.spec_size().height == HEADER_HEIGHT,
        s.toggled().spec_size().height == s.content.spec_size().height + CONTENT_PADDING
            + HEADER_HEIGHT,
{
}

/// A list is as tall as its rows: 20 pixels a row for bullets and experiences, 22 for skills.
pub proof fn lemma_list_heights(
    bullets: BulletListElement,
    experiences: ExperienceListElement,
    skills: SkillListElement,
)
    requires
        bullets.fits(),
        experiences.fits(),
        skills.fits(),
    ensures
        bullets.spec_size().height == bullets.items@.len() * TEXT_ROW_HEIGHT,
        experiences.spec_size().height == experiences.experiences@.len() * TEXT_ROW_HEIGHT,
        skills.spec_size().height == skills.skills@.len() * SKILL_ROW_HEIGHT,
{
}

/// The hit test includes all four corners of a section's box and excludes the points one
/// unit beyond each edge.
pub proof fn lemma_hit_test_edges(s: ExpandableSectionElement)
    requires
        s.fits(),
    ensures
        ({
            let r = s.spec_size();
            let right = (r.x + r.width) as i64;
            let bottom = (r.y + r.height) as i64;
            &&& contains(r, Point { x: r.x, y: r.y })
            &&& contains(r, Point { x: right, y: r.y })
            &&& contains(r, Point { x: r.x, y: bottom })
            &&& contains(r, Point { x: right, y: bottom })
            &&& !contains(r, Point { x: (r.x - 1) as i64, y: r.y })
            &&& !contains(r, Point { x: (right + 1) as i64, y: r.y })
            &&& !contains(r, Point { x: r.x, y: (r.y - 1) as i64 })
            &&& !contains(r, Point { x: r.x, y: (bottom + 1) as i64 })
        }),
{
}

} // verus!
