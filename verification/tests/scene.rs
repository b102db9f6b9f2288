use procedural_gen::ratio::NORMALIZER;
use procedural_gen::scene::{disc, middle, to_pixel, Circle, Rect, RING_RADIUS, SELECTED_X, SELECTED_Y};
use procedural_gen::{Colour, Point2, Ratio, SpaceObject, State};

const N: i128 = NORMALIZER as i128;
const WHITE: Colour = Colour { r: 255, g: 255, b: 255 };

fn filled(x: i16, y: i16, radius: i16, colour: (u8, u8, u8)) -> Circle {
    Circle { x, y, radius, colour: Colour { r: colour.0, g: colour.1, b: colour.2 }, filled: true }
}

fn body(diameter: i128, orbit_radius: i128, satellites: Vec<SpaceObject>) -> SpaceObject {
    SpaceObject {
        diameter: Ratio { numerator: diameter },
        pos: Point2::new(0, 0),
        colour: WHITE,
        orbit_radius: Ratio { numerator: orbit_radius },
        satellites,
    }
}

#[test]
fn pixels_stop_at_the_ends_of_their_range() {
    assert_eq!(to_pixel(0), 0);
    assert_eq!(to_pixel(-7), -7);
    assert_eq!(to_pixel(32_767), 32_767);
    assert_eq!(to_pixel(32_768), 32_767);
    assert_eq!(to_pixel(-32_769), -32_768);
    assert_eq!(to_pixel(i64::MAX), 32_767);
    assert_eq!(to_pixel(i64::MIN), -32_768);
}

#[test]
fn a_sector_is_drawn_at_its_middle() {
    assert_eq!(middle(0), 8);
    assert_eq!(middle(1), 24);
    assert_eq!(middle(49), 792);
    assert_eq!(middle(-1), -8);
    assert_eq!(middle(2_047), 32_760);
    assert_eq!(middle(2_048), 32_767);
    assert_eq!(middle(i64::MAX), 32_767);
    assert_eq!(middle(i64::MIN), -32_768);
}

#[test]
fn a_disc_is_half_the_diameter_in_radius() {
    let object = body(39 * N, 0, vec![]);
    assert_eq!(disc(&object, 3, -4), Circle { x: 3, y: -4, radius: 19, colour: WHITE, filled: true });
}

#[test]
fn the_selection_is_drawn_at_a_fixed_place() {
    assert_eq!((SELECTED_X, SELECTED_Y), (50, 450));
    assert_eq!(RING_RADIUS, 12);
}

#[test]
fn render_stars_draws_a_disc_for_each_star() {
    let mut state = State::default();
    state.mouse_xy = Point2::new(-1, -1);
    state.update(0);
    let marks = state.render_stars();
    assert_eq!(marks.len(), 83);
    assert_eq!(marks[0], filled(8, 552, 6, (255, 166, 81)));
    assert_eq!(marks[1], filled(24, 56, 5, (255, 166, 81)));
    assert_eq!(marks[2], filled(24, 296, 1, (255, 166, 81)));
    assert_eq!(marks[3], filled(24, 472, 5, (255, 217, 178)));
    assert!(marks.iter().all(|mark| mark.filled));
}

#[test]
fn render_stars_rings_the_star_under_the_pointer() {
    let mut state = State::default();
    state.mouse_xy = Point2::new(16 + 9, 3 * 16 + 2);
    state.update(0);
    let marks = state.render_stars();
    assert_eq!(marks.len(), 84);
    assert_eq!(marks[1], filled(24, 56, 5, (255, 166, 81)));
    assert_eq!(marks[2], Circle { x: 24, y: 56, radius: 12, colour: WHITE, filled: false });
    assert_eq!(marks[3], filled(24, 296, 1, (255, 166, 81)));
    assert_eq!(marks.iter().filter(|mark| !mark.filled).count(), 1);
}

#[test]
fn render_stars_of_an_empty_galaxy_is_empty() {
    assert!(State::default().render_stars().is_empty());
}

#[test]
fn render_selected_star_lays_out_the_system() {
    let mut state = State::default();
    state.mouse_xy = Point2::new(16, 3 * 16);
    state.lmb_clicked = true;
    state.update(0);
    let marks = state.render_selected_star();
    assert_eq!(
        marks,
        vec![
            filled(50, 450, 23, (255, 166, 81)),
            filled(250, 450, 10, (255, 166, 81)),
            filled(250, 613, 1, (175, 201, 255)),
            filled(250, 581, 1, (255, 199, 142)),
            filled(250, 597, 3, (255, 244, 243)),
            filled(296, 450, 11, (255, 217, 178)),
            filled(296, 538, 1, (255, 244, 243)),
        ]
    );
}

#[test]
fn render_selected_star_without_a_selection_is_empty() {
    assert!(State::default().render_selected_star().is_empty());
}

#[test]
fn render_planet_puts_the_moons_below_the_planet() {
    let planet = body(10 * N, 100 * N, vec![body(4 * N, 10 * N, vec![]), body(2 * N, -10 * N, vec![])]);
    let marks = State::render_planet(&planet);
    assert_eq!(
        marks,
        vec![
            filled(100, 450, 5, (255, 255, 255)),
            filled(100, 458, 2, (255, 255, 255)),
            filled(100, 442, 1, (255, 255, 255)),
        ]
    );
}

#[test]
fn render_planet_holds_far_bodies_to_the_pixels() {
    let far = body(i128::MAX, i128::MAX, vec![body(i128::MIN, i128::MIN, vec![])]);
    let marks = State::render_planet(&far);
    assert_eq!(
        marks,
        vec![
            filled(32_767, 450, 32_767, (255, 255, 255)),
            filled(32_767, -32_318, -32_768, (255, 255, 255)),
        ]
    );
}

#[test]
fn render_shows_the_panel_with_a_selection_only() {
    let mut state = State::default();
    state.update(0);
    let scene = state.render();
    assert_eq!(scene.stars.len(), 83);
    assert_eq!(scene.panel, None);
    assert!(scene.selected.is_empty());

    state.mouse_xy = Point2::new(16, 3 * 16);
    state.lmb_clicked = true;
    state.update(0);
    let scene = state.render();
    assert_eq!(scene.stars, state.render_stars());
    assert_eq!(scene.stars.len(), 84);
    assert_eq!(scene.panel, Some(Rect { x: 10, y: 300, width: 780, height: 290 }));
    assert_eq!(scene.selected, state.render_selected_star());
    assert_eq!(scene.selected.len(), 7);
}
