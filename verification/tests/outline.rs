use asteroids::outline::{destination, svg_to_vector, PathCommand, Placement};
use asteroids::vec2::Vec2;

#[test]
fn no_line_commands_give_an_empty_outline() {
    let commands = vec![
        PathCommand::Move(Placement::Absolute, Vec2::from_ints(3, 4)),
        PathCommand::Other,
        PathCommand::Move(Placement::Relative, Vec2::from_ints(1, 1)),
    ];
    assert_eq!(svg_to_vector(&commands), Vec::new());
    assert_eq!(svg_to_vector(&Vec::new()), Vec::new());
}

#[test]
fn a_triangle_is_closed_by_a_last_segment() {
    let commands = vec![
        PathCommand::Move(Placement::Absolute, Vec2::from_ints(10, 10)),
        PathCommand::Line(Placement::Absolute, Vec2::from_ints(20, 10)),
        PathCommand::Other,
        PathCommand::Line(Placement::Relative, Vec2::from_ints(0, 5)),
    ];
    let outline = svg_to_vector(&commands);
    assert_eq!(
        outline,
        vec![
            Vec2::from_ints(10, 10),
            Vec2::from_ints(20, 10),
            Vec2::from_ints(20, 10),
            Vec2::from_ints(20, 15),
            Vec2::from_ints(10, 10),
            Vec2::from_ints(20, 15),
        ]
    );
    assert_eq!(outline.len() % 2, 0);
}

#[test]
fn relative_commands_start_from_the_pen_position() {
    let pen = Vec2::from_ints(10, 20);
    assert_eq!(destination(pen, Placement::Absolute, Vec2::from_ints(3, 4)), Vec2::from_ints(3, 4));
    assert_eq!(destination(pen, Placement::Relative, Vec2::from_ints(3, 4)), Vec2::from_ints(13, 24));
    let commands = vec![
        PathCommand::Move(Placement::Relative, Vec2::from_ints(5, 5)),
        PathCommand::Move(Placement::Relative, Vec2::from_ints(5, 5)),
        PathCommand::Line(Placement::Relative, Vec2::from_ints(-10, 0)),
    ];
    assert_eq!(
        svg_to_vector(&commands),
        vec![
            Vec2::from_ints(10, 10),
            Vec2::from_ints(0, 10),
            Vec2::from_ints(10, 10),
            Vec2::from_ints(0, 10),
        ]
    );
}

#[test]
fn the_pen_starts_at_the_origin() {
    let commands = vec![PathCommand::Line(Placement::Absolute, Vec2::from_ints(7, 0))];
    assert_eq!(
        svg_to_vector(&commands),
        vec![Vec2::zero(), Vec2::from_ints(7, 0), Vec2::zero(), Vec2::from_ints(7, 0)]
    );
}

#[test]
fn the_closing_segment_ends_where_the_pen_ends() {
    let commands = vec![
        PathCommand::Move(Placement::Absolute, Vec2::from_ints(1, 1)),
        PathCommand::Line(Placement::Absolute, Vec2::from_ints(5, 1)),
        PathCommand::Move(Placement::Absolute, Vec2::from_ints(9, 9)),
        PathCommand::Line(Placement::Absolute, Vec2::from_ints(9, 3)),
        PathCommand::Move(Placement::Relative, Vec2::from_ints(1, 1)),
    ];
    assert_eq!(
        svg_to_vector(&commands),
        vec![
            Vec2::from_ints(1, 1),
            Vec2::from_ints(5, 1),
            Vec2::from_ints(9, 9),
            Vec2::from_ints(9, 3),
            Vec2::from_ints(1, 1),
            Vec2::from_ints(10, 4),
        ]
    );
}

#[test]
fn every_outline_holds_two_points_per_line_and_a_closing_pair() {
    for lines in 0..6 {
        for others in 0..3 {
            let mut commands = Vec::new();
            for i in 0..lines {
                for _ in 0..others {
                    commands.push(PathCommand::Other);
                    commands.push(PathCommand::Move(Placement::Relative, Vec2::from_ints(1, 2)));
                }
                commands.push(PathCommand::Line(Placement::Relative, Vec2::from_ints(i, 1)));
            }
            let expected = if lines == 0 { 0 } else { 2 * lines as usize + 2 };
            let outline = svg_to_vector(&commands);
            assert_eq!(outline.len(), expected);
            assert_eq!(outline.len() % 2, 0);
        }
    }
}
