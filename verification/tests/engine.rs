use cellular_automaton::automaton::Automaton;
use cellular_automaton::boundary::ClampedEdges;
use cellular_automaton::cell::convert;
use cellular_automaton::cell::BasicCell;
use cellular_automaton::cell::Cell;
use cellular_automaton::cell::FromCell;
use cellular_automaton::generation::Generation;
use cellular_automaton::random_init::RandomInit;
use cellular_automaton::render::Render;
use cellular_automaton::rule::Rule;
use cellular_automaton::rule30::Rule30;
use cellular_automaton::rule90::Rule90;
use cellular_automaton::vector_generation::VectorGeneration;

fn generation_of(states: &[bool]) -> VectorGeneration<BasicCell> {
    let mut cells: Vec<BasicCell> = Vec::new();
    for &alive in states {
        if alive {
            cells.push(BasicCell::alive());
        } else {
            cells.push(BasicCell::dead());
        }
    }
    VectorGeneration::from_cells(cells)
}

fn states_of(generation: &VectorGeneration<BasicCell>) -> Vec<bool> {
    let mut states: Vec<bool> = Vec::new();
    for cell in generation.cells() {
        states.push(cell.is_alive());
    }
    states
}

#[test]
fn randomized_has_requested_width() {
    for width in [0usize, 1, 2, 5, 140] {
        let generation: VectorGeneration<BasicCell> = VectorGeneration::randomized(width);
        assert_eq!(generation.cells().len(), width);
    }
}

#[test]
fn neighbors_as_long_as_cells() {
    let empty: VectorGeneration<BasicCell> = VectorGeneration::new(0);
    assert_eq!(empty.neighbors().len(), empty.cells().len());

    let built = generation_of(&[true, false, true, true]);
    assert_eq!(built.neighbors().len(), built.cells().len());

    let randomized: VectorGeneration<BasicCell> = VectorGeneration::randomized(17);
    assert_eq!(randomized.neighbors().len(), randomized.cells().len());
}

#[test]
fn dead_padding_at_the_edges() {
    let generation = generation_of(&[false, true, false]);
    let neighbors = generation.neighbors();
    assert_eq!(neighbors[0], (false, true));
    assert_eq!(neighbors[1], (false, false));
    assert_eq!(neighbors[2], (true, false));

    let all_alive = generation_of(&[true, true, true]);
    let neighbors = all_alive.neighbors();
    assert_eq!(neighbors[0], (false, true));
    assert_eq!(neighbors[2], (true, false));
}

#[test]
fn dead_padding_tiny_widths() {
    let single = generation_of(&[true]);
    assert_eq!(single.neighbors(), vec![(false, false)]);

    let empty: VectorGeneration<BasicCell> = VectorGeneration::new(0);
    assert!(empty.neighbors().is_empty());
}

#[test]
fn clamped_edges_make_a_cell_its_own_neighbor() {
    let generation = generation_of(&[true, false, true]);
    let clamped = generation.neighbors_with::<ClampedEdges>();
    assert_eq!(clamped[0], (true, false));
    assert_eq!(clamped[1], (true, true));
    assert_eq!(clamped[2], (false, true));

    let single = generation_of(&[true]);
    assert_eq!(single.neighbors_with::<ClampedEdges>(), vec![(true, true)]);
}

#[test]
fn evolve_preserves_row_length() {
    for width in [0usize, 1, 2, 7, 140] {
        let generation: VectorGeneration<BasicCell> = VectorGeneration::randomized(width);
        let mut automaton = Automaton::new(Rule90, generation);
        automaton.evolve();
        assert_eq!(automaton.render().chars().count(), width);
    }
}

#[test]
fn rule90_truth_table() {
    let rule = Rule90;
    for current in [BasicCell::dead(), BasicCell::alive()] {
        let next: BasicCell = rule.evaluate(&(false, false), &current);
        assert!(!next.is_alive());
        let next: BasicCell = rule.evaluate(&(true, false), &current);
        assert!(next.is_alive());
        let next: BasicCell = rule.evaluate(&(false, true), &current);
        assert!(next.is_alive());
        let next: BasicCell = rule.evaluate(&(true, true), &current);
        assert!(!next.is_alive());
    }
}

#[test]
fn rule30_truth_table() {
    let rule = Rule30;
    let dead = BasicCell::dead();
    let alive = BasicCell::alive();
    let cases = [
        ((false, false), false, false),
        ((false, true), false, true),
        ((true, false), false, true),
        ((true, true), false, false),
        ((false, false), true, true),
        ((false, true), true, true),
        ((true, false), true, false),
        ((true, true), true, false),
    ];
    for (neighbors, current_alive, expected) in cases {
        let current = if current_alive { &alive } else { &dead };
        let next: BasicCell = rule.evaluate(&neighbors, current);
        assert_eq!(next.is_alive(), expected);
    }
}

#[test]
fn rule90_single_alive_cell_splits_in_two() {
    let generation = generation_of(&[false, false, true, false, false]);
    let mut automaton = Automaton::new(Rule90, generation);
    automaton.evolve();
    let rendered = automaton.render();
    let circle = '\u{25cf}';
    let expected: String = [' ', circle, ' ', circle, ' '].iter().collect();
    assert_eq!(rendered, expected);
}

#[test]
fn evolving_twice_from_one_seed_gives_the_classic_triangle_rows() {
    let generation = generation_of(&[false, false, true, false, false]);
    let mut automaton = Automaton::new(Rule90, generation);
    automaton.evolve();
    automaton.evolve();
    // [0,1,0,1,0] evolves to [1,0,0,0,1] under dead-padded Rule 90.
    let circle = '\u{25cf}';
    let expected: String = [circle, ' ', ' ', ' ', circle].iter().collect();
    assert_eq!(automaton.render(), expected);
}

#[test]
fn render_is_idempotent() {
    let generation: VectorGeneration<BasicCell> = VectorGeneration::randomized(9);
    let automaton = Automaton::new(Rule90, generation);
    let first = automaton.render();
    let second = automaton.render();
    assert_eq!(first, second);
}

#[test]
fn width_zero_is_a_fixed_point() {
    let generation: VectorGeneration<BasicCell> = VectorGeneration::new(0);
    let mut automaton = Automaton::new(Rule90, generation);
    automaton.evolve();
    assert_eq!(automaton.render(), "");
    automaton.evolve();
    assert_eq!(automaton.render(), "");
}

#[test]
fn new_generation_is_all_dead() {
    let generation: VectorGeneration<BasicCell> = VectorGeneration::new(4);
    for cell in generation.cells() {
        assert!(!cell.is_alive());
    }
    assert_eq!(generation.render(), "    ");
}

#[test]
fn render_draws_one_glyph_per_cell() {
    let generation = generation_of(&[false, true, false]);
    let circle = '\u{25cf}';
    let expected: String = [' ', circle, ' '].iter().collect();
    assert_eq!(generation.render(), expected);

    let cell = BasicCell::alive();
    assert_eq!(cell.render(), circle.to_string());
    let cell = BasicCell::dead();
    assert_eq!(cell.render(), " ");
}

#[test]
fn conversion_goes_through_the_canonical_boolean() {
    let alive = BasicCell::alive();
    let copy: BasicCell = convert(&alive);
    assert!(copy.is_alive());

    let dead = BasicCell::dead();
    let copy: BasicCell = convert(&dead);
    assert!(!copy.is_alive());

    let from = BasicCell::from_cell(&alive);
    assert!(from.is_alive());
}

#[test]
fn rebuilding_from_cells_keeps_order_and_length() {
    let states = [true, false, false, true, true];
    let generation = generation_of(&states);
    assert_eq!(states_of(&generation), states.to_vec());
}

#[test]
fn rule30_single_seed_first_step() {
    // [0,0,1,0,0] under dead-padded Rule 30 becomes [0,1,1,1,0].
    let generation = generation_of(&[false, false, true, false, false]);
    let mut automaton = Automaton::new(Rule30, generation);
    automaton.evolve();
    let circle = '\u{25cf}';
    let expected: String = [' ', circle, circle, circle, ' '].iter().collect();
    assert_eq!(automaton.render(), expected);
}
