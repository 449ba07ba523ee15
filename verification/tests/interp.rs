use ttf_render::interp_instructor::ops_stack::sign_extend;
use ttf_render::interp_instructor::rounding::RoundState;
use ttf_render::interp_instructor::state::Zone;
use ttf_render::interp_instructor::Interp;
use ttf_render::interp_instructor::InterpState;
use ttf_render::interp_instructor::ScalerError;
use ttf_render::interp_instructor::Vector;
use ttf_render::numerics::F26d6;
use ttf_render::truetype_loader::F2dot14;
use ttf_render::truetype_loader::Fixed;
use ttf_render::truetype_loader::MaxProfileTable;
use ttf_render::Point;

fn profile(max_stack: u16) -> MaxProfileTable {
    MaxProfileTable {
        version: Fixed { int_part: 1, frac_part: 0 },
        num_glyphs: 1,
        num_points: 16,
        max_contours: 2,
        max_composite_points: 0,
        max_composite_contours: 0,
        max_zones: 2,
        max_twilight_points: 4,
        max_storage: 8,
        max_function_defs: 4,
        max_instruction_defs: 2,
        max_stack,
        max_instruction_size: 100,
        max_component_elements: 0,
        max_component_depth: 0,
    }
}

fn machine() -> Interp {
    Interp::new(&profile(32), &vec![100, -200, 50], &vec![], &vec![], 12, 72, 1000)
}

fn run(code: &[u8]) -> Interp {
    let mut m = machine();
    m.interpret(&code.to_vec()).unwrap();
    m
}

fn fails(code: &[u8]) -> ScalerError {
    let mut m = machine();
    m.interpret(&code.to_vec()).unwrap_err()
}

fn px(x: i32, y: i32) -> Point {
    Point::new(F26d6::from_bits(x), F26d6::from_bits(y))
}

fn with_points(points: Vec<Point>, ends: Vec<u16>) -> Interp {
    let mut m = machine();
    let n = points.len();
    m.glyph = Zone { points: points.clone(), original: points, flags: vec![1; n], ends };
    m
}

#[test]
fn push_three_bytes_and_add_twice() {
    let mut m = machine();
    m.interpret(&vec![0xB2, 7, 8, 9]).unwrap();
    assert_eq!(m.stack, vec![7, 8, 9]);
    let m = run(&[0xB2, 7, 8, 9, 0x60, 0x60]);
    assert_eq!(m.stack.last(), Some(&24));
    assert_eq!(m.stack.len(), 1);
    assert_eq!(m.pc, 6);
}

#[test]
fn false_condition_runs_the_else_branch() {
    let mut m = machine();
    m.stack.push(0);
    m.interpret(&vec![0x58, 0xB0, 1, 0x1B, 0xB0, 42, 0x59]).unwrap();
    assert_eq!(m.stack, vec![42]);
}

#[test]
fn true_condition_runs_the_first_branch_only() {
    let m = run(&[0xB0, 5, 0x58, 0xB0, 1, 0x1B, 0xB0, 42, 0x59, 0xB0, 9]);
    assert_eq!(m.stack, vec![1, 9]);
    let m = run(&[0xB0, 0, 0x58, 0xB0, 1, 0x59, 0xB0, 9]);
    assert_eq!(m.stack, vec![9]);
}

#[test]
fn nested_conditions_are_skipped_as_a_whole() {
    let code = [0xB0, 0, 0x58, 0xB0, 1, 0x58, 0xB0, 2, 0x1B, 0xB0, 3, 0x59, 0x1B, 0xB0, 4, 0x59];
    assert_eq!(run(&code).stack, vec![4]);
    let code = [0xB0, 1, 0x58, 0xB0, 0, 0x58, 0xB0, 2, 0x1B, 0xB0, 3, 0x59, 0x1B, 0xB0, 4, 0x59];
    assert_eq!(run(&code).stack, vec![3]);
    let pushed = [0xB0, 0, 0x58, 0xB1, 0x59, 0x1B, 0x59, 0xB0, 7];
    assert_eq!(run(&pushed).stack, vec![7]);
}

#[test]
fn branch_without_end_is_invalid() {
    assert_eq!(fails(&[0xB0, 0, 0x58, 0xB0, 1]), ScalerError::InvalidInstruction(2, 0x58));
    assert_eq!(fails(&[0x1B, 0xB0, 1]), ScalerError::InvalidInstruction(0, 0x1B));
    assert_eq!(fails(&[0x58]), ScalerError::StackUnderflow(0));
}

#[test]
fn mppem_pushes_pixels_per_em() {
    let m = run(&[0x4B]);
    assert_eq!(m.stack, vec![12]);
    let m = run(&[0x4C]);
    assert_eq!(m.stack, vec![12]);
    let mut big = Interp::new(&profile(8), &vec![], &vec![], &vec![], 10, 144, 2048);
    big.interpret(&vec![0x4B, 0x4C]).unwrap();
    assert_eq!(big.stack, vec![20, 10]);
}

#[test]
fn empty_stack_gives_underflow_at_the_instruction() {
    assert_eq!(fails(&[0x60]), ScalerError::StackUnderflow(0));
    assert_eq!(fails(&[0xB0, 1, 0x60]), ScalerError::StackUnderflow(2));
    assert_eq!(fails(&[0x21]), ScalerError::StackUnderflow(0));
    assert_eq!(fails(&[0xB0, 1, 0x23]), ScalerError::StackUnderflow(2));
    assert_eq!(fails(&[0xB1, 1, 2, 0x8A]), ScalerError::StackUnderflow(3));
    assert_eq!(fails(&[0x10]), ScalerError::StackUnderflow(0));
    assert_eq!(fails(&[0x2E]), ScalerError::StackUnderflow(0));
}

#[test]
fn undefined_bytes_are_invalid_instructions() {
    assert_eq!(fails(&[0x28]), ScalerError::InvalidInstruction(0, 0x28));
    assert_eq!(fails(&[0xB0, 1, 0x7B]), ScalerError::InvalidInstruction(2, 0x7B));
    assert_eq!(fails(&[0x83]), ScalerError::InvalidInstruction(0, 0x83));
    assert_eq!(fails(&[0x84]), ScalerError::InvalidInstruction(0, 0x84));
    assert_eq!(fails(&[0x8F]), ScalerError::InvalidInstruction(0, 0x8F));
    assert_eq!(fails(&[0xAF]), ScalerError::InvalidInstruction(0, 0xAF));
}

#[test]
fn full_stack_makes_the_glyph_invalid() {
    let mut m = Interp::new(&profile(2), &vec![], &vec![], &vec![], 12, 72, 1000);
    assert_eq!(m.interpret(&vec![0xB1, 1, 2]), Ok(()));
    let mut m = Interp::new(&profile(2), &vec![], &vec![], &vec![], 12, 72, 1000);
    assert_eq!(m.interpret(&vec![0xB2, 1, 2, 3]), Err(ScalerError::InvalidGlyph));
    let mut m = Interp::new(&profile(2), &vec![], &vec![], &vec![], 12, 72, 1000);
    assert_eq!(m.interpret(&vec![0xB1, 1, 2, 0x20]), Err(ScalerError::InvalidGlyph));
    let mut m = Interp::new(&profile(2), &vec![], &vec![], &vec![], 12, 72, 1000);
    assert_eq!(m.interpret(&vec![0xB1, 1, 2, 0x24]), Err(ScalerError::InvalidGlyph));
}

#[test]
fn push_data_must_lie_inside_the_program() {
    assert_eq!(fails(&[0xB1, 1]), ScalerError::InvalidInstruction(0, 0xB1));
    assert_eq!(fails(&[0x40]), ScalerError::InvalidInstruction(0, 0x40));
    assert_eq!(fails(&[0x40, 3, 1, 2]), ScalerError::InvalidInstruction(0, 0x40));
    assert_eq!(fails(&[0xB8, 1]), ScalerError::InvalidInstruction(0, 0xB8));
    assert_eq!(fails(&[0x41, 1, 0]), ScalerError::InvalidInstruction(0, 0x41));
}

#[test]
fn pushes_of_all_kinds() {
    assert_eq!(run(&[0x40, 3, 1, 2, 3]).stack, vec![1, 2, 3]);
    assert_eq!(run(&[0x40, 0]).stack, Vec::<u32>::new());
    assert_eq!(run(&[0x41, 2, 0x01, 0x02, 0xFF, 0xFE]).stack, vec![0x0102, 0xFFFF_FFFE]);
    assert_eq!(run(&[0xB8, 0x80, 0x00]).stack, vec![0xFFFF_8000]);
    assert_eq!(run(&[0xB9, 0x7F, 0xFF, 0x00, 0x01]).stack, vec![0x7FFF, 1]);
    assert_eq!(run(&[0xB7, 1, 2, 3, 4, 5, 6, 7, 8]).stack, vec![1, 2, 3, 4, 5, 6, 7, 8]);
    assert_eq!(run(&[0xB0, 255]).stack, vec![255]);
}

#[test]
fn arithmetic_on_fixed_point_numbers() {
    assert_eq!(run(&[0xB1, 10, 3, 0x61]).stack, vec![7]);
    assert_eq!(run(&[0xB1, 3, 10, 0x61]).stack, vec![(-7i32) as u32]);
    assert_eq!(run(&[0xB1, 128, 192, 0x63]).stack, vec![384]);
    assert_eq!(run(&[0xB1, 192, 128, 0x62]).stack, vec![96]);
    assert_eq!(run(&[0xB8, 0xFF, 0x40, 0xB0, 128, 0x62]).stack, vec![(-96i32) as u32]);
    assert_eq!(fails(&[0xB1, 1, 0, 0x62]), ScalerError::InvalidInstruction(3, 0x62));
    assert_eq!(run(&[0xB8, 0xFF, 0xFB, 0x64]).stack, vec![5]);
    assert_eq!(run(&[0xB0, 5, 0x65]).stack, vec![(-5i32) as u32]);
    assert_eq!(run(&[0xB0, 65, 0x66]).stack, vec![64]);
    assert_eq!(run(&[0xB0, 65, 0x67]).stack, vec![128]);
    assert_eq!(run(&[0xB8, 0xFF, 0xFF, 0x66]).stack, vec![(-64i32) as u32]);
    assert_eq!(run(&[0xB8, 0xFF, 0xFF, 0x67]).stack, vec![0]);
    assert_eq!(run(&[0xB8, 0xFF, 0xFF, 0xB0, 2, 0x8B]).stack, vec![2]);
    assert_eq!(run(&[0xB8, 0xFF, 0xFF, 0xB0, 2, 0x8C]).stack, vec![0xFFFF_FFFF]);
    assert_eq!(run(&[0xB8, 0x7F, 0xFF, 0x20, 0x63]).stack, vec![((0x7FFFi64 * 0x7FFF) >> 6) as u32]);
}

#[test]
fn comparisons_read_the_lower_value_first() {
    assert_eq!(run(&[0xB1, 1, 2, 0x50]).stack, vec![1]);
    assert_eq!(run(&[0xB1, 2, 1, 0x50]).stack, vec![0]);
    assert_eq!(run(&[0xB1, 2, 2, 0x51]).stack, vec![1]);
    assert_eq!(run(&[0xB1, 2, 1, 0x52]).stack, vec![1]);
    assert_eq!(run(&[0xB1, 1, 2, 0x53]).stack, vec![0]);
    assert_eq!(run(&[0xB1, 3, 3, 0x54]).stack, vec![1]);
    assert_eq!(run(&[0xB1, 3, 4, 0x55]).stack, vec![1]);
    assert_eq!(run(&[0xB8, 0xFF, 0xFF, 0xB0, 1, 0x50]).stack, vec![1]);
    assert_eq!(run(&[0xB1, 5, 7, 0x5A]).stack, vec![1]);
    assert_eq!(run(&[0xB1, 5, 0, 0x5A]).stack, vec![0]);
    assert_eq!(run(&[0xB1, 0, 7, 0x5B]).stack, vec![1]);
    assert_eq!(run(&[0xB1, 0, 0, 0x5B]).stack, vec![0]);
    assert_eq!(run(&[0xB0, 0, 0x5C]).stack, vec![1]);
    assert_eq!(run(&[0xB0, 9, 0x5C]).stack, vec![0]);
}

#[test]
fn rounding_instructions() {
    assert_eq!(run(&[0xB0, 40, 0x68]).stack, vec![64]);
    assert_eq!(run(&[0xB0, 31, 0x68]).stack, vec![0]);
    assert_eq!(run(&[0xB8, 0xFF, 0xD8, 0x69]).stack, vec![(-64i32) as u32]);
    assert_eq!(run(&[0x19, 0xB0, 40, 0x68]).stack, vec![32]);
    assert_eq!(run(&[0x3D, 0xB0, 40, 0x68]).stack, vec![32]);
    assert_eq!(run(&[0x3D, 0xB0, 50, 0x68]).stack, vec![64]);
    assert_eq!(run(&[0x7D, 0xB0, 63, 0x68]).stack, vec![0]);
    assert_eq!(run(&[0x7C, 0xB0, 1, 0x68]).stack, vec![64]);
    assert_eq!(run(&[0x7A, 0xB0, 37, 0x68]).stack, vec![37]);
    assert_eq!(run(&[0xB0, 37, 0x6C]).stack, vec![37]);
    assert_eq!(run(&[0xB0, 64, 0x56]).stack, vec![1]);
    assert_eq!(run(&[0xB0, 128, 0x56]).stack, vec![0]);
    assert_eq!(run(&[0xB0, 128, 0x57]).stack, vec![1]);
    assert_eq!(run(&[0xB0, 100, 0x57]).stack, vec![1]);
    let m = run(&[0xB0, 0x48, 0x76]);
    assert_eq!(m.state.round_state, RoundState::Super { period: 64, phase: 0, threshold: 32 });
    let m = run(&[0xB0, 0x48, 0x76, 0xB0, 40, 0x68]);
    assert_eq!(m.stack, vec![64]);
    let m = run(&[0xB0, 0x00, 0x77]);
    assert_eq!(m.state.round_state, RoundState::Super { period: 22, phase: 0, threshold: 21 });
}

#[test]
fn stack_rearrangement() {
    assert_eq!(run(&[0xB0, 4, 0x20]).stack, vec![4, 4]);
    assert_eq!(run(&[0xB1, 4, 5, 0x21]).stack, vec![4]);
    assert_eq!(run(&[0xB1, 4, 5, 0x22]).stack, Vec::<u32>::new());
    assert_eq!(run(&[0xB1, 4, 5, 0x23]).stack, vec![5, 4]);
    assert_eq!(run(&[0xB1, 4, 5, 0x24]).stack, vec![4, 5, 2]);
    assert_eq!(run(&[0xB3, 7, 8, 9, 2, 0x25]).stack, vec![7, 8, 9, 8]);
    assert_eq!(run(&[0xB3, 7, 8, 9, 3, 0x26]).stack, vec![8, 9, 7]);
    assert_eq!(run(&[0xB3, 7, 8, 9, 1, 0x26]).stack, vec![7, 8, 9]);
    assert_eq!(run(&[0xB2, 1, 2, 3, 0x8A]).stack, vec![2, 3, 1]);
    assert_eq!(fails(&[0xB1, 7, 0, 0x25]), ScalerError::InvalidGlyph);
    assert_eq!(fails(&[0xB1, 7, 2, 0x25]), ScalerError::InvalidGlyph);
    assert_eq!(fails(&[0xB1, 7, 5, 0x26]), ScalerError::InvalidGlyph);
}

#[test]
fn jumps_count_from_the_instruction() {
    assert_eq!(run(&[0xB0, 3, 0x1C, 0xB0, 9, 0xB0, 7]).stack, vec![7]);
    assert_eq!(run(&[0xB1, 3, 1, 0x78, 0xB0, 9, 0xB0, 7]).stack, vec![7]);
    assert_eq!(run(&[0xB1, 3, 0, 0x78, 0xB0, 9, 0xB0, 7]).stack, vec![9, 7]);
    assert_eq!(run(&[0xB1, 3, 0, 0x79, 0xB0, 9, 0xB0, 7]).stack, vec![7]);
    assert_eq!(run(&[0xB1, 3, 1, 0x79, 0xB0, 9, 0xB0, 7]).stack, vec![9, 7]);
    assert_eq!(fails(&[0xB0, 9, 0x1C]), ScalerError::InvalidInstruction(2, 0x1C));
    assert_eq!(fails(&[0xB8, 0xFF, 0xF0, 0x1C]), ScalerError::InvalidInstruction(3, 0x1C));
    assert_eq!(run(&[0xB0, 1, 0x1C]).stack, Vec::<u32>::new());
}

#[test]
fn a_program_that_never_ends_is_given_up() {
    assert_eq!(fails(&[0xB8, 0xFF, 0xFD, 0x1C]), ScalerError::InvalidGlyph);
    assert_eq!(fails(&[0xB0, 0, 0x1C]), ScalerError::StackUnderflow(2));
}

#[test]
fn functions_are_defined_in_the_font_program_and_called_from_glyphs() {
    let fpgm = vec![0xB0, 1, 0x2C, 0xB0, 5, 0x60, 0x2D, 0xB0, 2, 0x2C, 0xB0, 1, 0x2B, 0x20, 0x2D];
    let mut m = Interp::new(&profile(32), &vec![], &fpgm, &vec![], 12, 72, 1000);
    m.prepare().unwrap();
    assert!(m.functions[1].defined);
    assert!(m.functions[2].defined);
    assert!(!m.functions[0].defined);
    assert_eq!(m.functions[1].start, 3);
    assert_eq!(m.stack, Vec::<u32>::new());
    m.interpret(&vec![0xB1, 10, 1, 0x2B, 0xB0, 3]).unwrap();
    assert_eq!(m.stack, vec![15, 3]);
    assert_eq!(m.frames.len(), 0);
    m.stack.clear();
    m.interpret(&vec![0xB2, 10, 3, 1, 0x2A]).unwrap();
    assert_eq!(m.stack, vec![25]);
    m.stack.clear();
    m.interpret(&vec![0xB2, 10, 0, 1, 0x2A]).unwrap();
    assert_eq!(m.stack, vec![10]);
    m.stack.clear();
    m.interpret(&vec![0xB1, 10, 2, 0x2B]).unwrap();
    assert_eq!(m.stack, vec![15, 15]);
    m.stack.clear();
    assert_eq!(m.interpret(&vec![0xB0, 0, 0x2B]), Err(ScalerError::InvalidGlyph));
    m.stack.clear();
    assert_eq!(m.interpret(&vec![0xB0, 9, 0x2B]), Err(ScalerError::InvalidGlyph));
    m.stack.clear();
    assert_eq!(m.interpret(&vec![0x2D]), Err(ScalerError::InvalidInstruction(0, 0x2D)));
    m.stack.clear();
    assert_eq!(
        m.interpret(&vec![0xB0, 3, 0x2C, 0x2D]),
        Err(ScalerError::InvalidInstruction(2, 0x2C))
    );
}

#[test]
fn endless_recursion_is_given_up() {
    let fpgm = vec![0xB0, 0, 0x2C, 0xB0, 0, 0x2B, 0x2D];
    let mut m = Interp::new(&profile(32), &vec![], &fpgm, &vec![], 12, 72, 1000);
    m.prepare().unwrap();
    assert_eq!(m.interpret(&vec![0xB0, 0, 0x2B]), Err(ScalerError::InvalidGlyph));
}

#[test]
fn definitions_without_end_are_invalid() {
    let mut m = Interp::new(&profile(32), &vec![], &vec![0xB0, 0, 0x2C, 0x20], &vec![], 12, 72, 1000);
    assert_eq!(m.prepare(), Err(ScalerError::InvalidInstruction(2, 0x2C)));
    let nested = vec![0xB1, 0, 1, 0x2C, 0x2C, 0x2D, 0x2D];
    let mut m = Interp::new(&profile(32), &vec![], &nested, &vec![], 12, 72, 1000);
    assert_eq!(m.prepare(), Err(ScalerError::InvalidInstruction(3, 0x2C)));
    let mut m = Interp::new(&profile(32), &vec![], &vec![0xB0, 4, 0x2C, 0x2D], &vec![], 12, 72, 1000);
    assert_eq!(m.prepare(), Err(ScalerError::InvalidGlyph));
}

#[test]
fn user_instructions_are_called_by_their_byte() {
    let fpgm = vec![0xB0, 0x90, 0x89, 0xB0, 7, 0x2D];
    let mut m = Interp::new(&profile(32), &vec![], &fpgm, &vec![], 12, 72, 1000);
    m.prepare().unwrap();
    m.interpret(&vec![0x90, 0x90, 0x60]).unwrap();
    assert_eq!(m.stack, vec![14]);
    m.stack.clear();
    assert_eq!(m.interpret(&vec![0x91]), Err(ScalerError::InvalidInstruction(0, 0x91)));
}

#[test]
fn instruction_control_belongs_to_the_control_value_program() {
    assert_eq!(fails(&[0xB1, 1, 1, 0x8E]), ScalerError::InvalidInstruction(3, 0x8E));
    let prep = vec![0xB1, 1, 1, 0x8E, 0xB0, 80, 0x1D];
    let mut m = Interp::new(&profile(32), &vec![], &vec![], &prep, 12, 72, 1000);
    m.prepare().unwrap();
    assert!(m.state.instruct_ctrl);
    assert_eq!(m.state.cvt_cutin, F26d6::from_bits(80));
    let bad = vec![0xB1, 1, 4, 0x8E];
    let mut m = Interp::new(&profile(32), &vec![], &vec![], &bad, 12, 72, 1000);
    assert_eq!(m.prepare(), Err(ScalerError::InvalidGlyph));
}

#[test]
fn storage_and_control_values() {
    assert_eq!(run(&[0xB1, 3, 77, 0x42, 0xB0, 3, 0x43]).stack, vec![77]);
    assert_eq!(run(&[0xB0, 7, 0x43]).stack, vec![0]);
    assert_eq!(fails(&[0xB0, 8, 0x43]), ScalerError::InvalidGlyph);
    assert_eq!(fails(&[0xB1, 8, 1, 0x42]), ScalerError::InvalidGlyph);
    let m = machine();
    assert_eq!(
        m.cv_table,
        vec![F26d6::from_bits(77), F26d6::from_bits(-154), F26d6::from_bits(38)]
    );
    assert_eq!(run(&[0xB0, 0, 0x45]).stack, vec![77]);
    assert_eq!(run(&[0xB0, 1, 0x45]).stack, vec![(-154i32) as u32]);
    assert_eq!(fails(&[0xB0, 3, 0x45]), ScalerError::InvalidGlyph);
    assert_eq!(run(&[0xB1, 2, 99, 0x44, 0xB0, 2, 0x45]).stack, vec![99]);
    assert_eq!(run(&[0xB1, 2, 100, 0x70, 0xB0, 2, 0x45]).stack, vec![77]);
    assert_eq!(fails(&[0xB1, 3, 1, 0x44]), ScalerError::InvalidGlyph);
    assert_eq!(fails(&[0xB1, 3, 1, 0x70]), ScalerError::InvalidGlyph);
}

#[test]
fn initial_graphics_state() {
    let s = InterpState::new();
    let x = Vector { x: F2dot14(0x4000), y: F2dot14(0) };
    assert!(s.auto_flip);
    assert_eq!(s.cvt_cutin, F26d6::from_bits(68));
    assert_eq!(s.delta_base, 9);
    assert_eq!(s.delta_shift, 3);
    assert_eq!(s.project_vec, x);
    assert_eq!(s.dual_prj_vec, x);
    assert_eq!(s.freedom_vec, x);
    assert!(!s.instruct_ctrl);
    assert_eq!(s.loopv, 1);
    assert_eq!(s.min_dist, F26d6::from_bits(64));
    assert_eq!(s.round_state, RoundState::Grid);
    assert_eq!((s.rp0, s.rp1, s.rp2), (0, 0, 0));
    assert!(!s.scan_ctrl);
    assert_eq!(s.single_width_cut_in, F26d6::from_bits(0));
    assert_eq!(s.single_width_value, F26d6::from_bits(0));
    assert_eq!((s.zp0, s.zp1, s.zp2), (1, 1, 1));
    let m = machine();
    assert_eq!(m.state, s);
    assert_eq!(m.twilight.points.len(), 4);
    assert_eq!(m.storage.len(), 8);
    assert_eq!(m.functions.len(), 4);
    assert_eq!(m.max_stack, 32);
}

#[test]
fn setters_of_the_graphics_state() {
    let x = Vector { x: F2dot14(0x4000), y: F2dot14(0) };
    let y = Vector { x: F2dot14(0), y: F2dot14(0x4000) };
    let m = run(&[0x00]);
    assert_eq!((m.state.project_vec, m.state.dual_prj_vec, m.state.freedom_vec), (y, y, y));
    let m = run(&[0x00, 0x01]);
    assert_eq!((m.state.project_vec, m.state.dual_prj_vec, m.state.freedom_vec), (x, x, x));
    let m = run(&[0x02]);
    assert_eq!((m.state.project_vec, m.state.freedom_vec), (y, x));
    let m = run(&[0x04]);
    assert_eq!((m.state.project_vec, m.state.freedom_vec), (x, y));
    let m = run(&[0x02, 0x0E]);
    assert_eq!(m.state.freedom_vec, y);
    let m = run(&[0x00, 0x03, 0x05]);
    assert_eq!((m.state.project_vec, m.state.freedom_vec), (x, x));
    let m = run(&[0xB0, 2, 0x10, 0xB0, 3, 0x11, 0xB0, 1, 0x12]);
    assert_eq!((m.state.rp0, m.state.rp1, m.state.rp2), (2, 3, 1));
    assert_eq!(fails(&[0xB0, 4, 0x10]), ScalerError::InvalidGlyph);
    let m = run(&[0xB0, 0, 0x13, 0xB0, 0, 0x15]);
    assert_eq!((m.state.zp0, m.state.zp1, m.state.zp2), (0, 1, 0));
    let m = run(&[0xB0, 0, 0x16]);
    assert_eq!((m.state.zp0, m.state.zp1, m.state.zp2), (0, 0, 0));
    assert_eq!(fails(&[0xB0, 2, 0x14]), ScalerError::InvalidGlyph);
    assert_eq!(fails(&[0xB0, 2, 0x16]), ScalerError::InvalidGlyph);
    let m = run(&[0xB0, 5, 0x17, 0xB0, 32, 0x1A, 0xB0, 70, 0x1D, 0xB0, 9, 0x1E, 0xB0, 100, 0x1F]);
    assert_eq!(m.state.loopv, 5);
    assert_eq!(m.state.min_dist, F26d6::from_bits(32));
    assert_eq!(m.state.cvt_cutin, F26d6::from_bits(70));
    assert_eq!(m.state.single_width_cut_in, F26d6::from_bits(9));
    assert_eq!(m.state.single_width_value, F26d6::from_bits(77));
    let m = run(&[0xB0, 12, 0x5E, 0xB0, 6, 0x5F, 0x4E]);
    assert_eq!((m.state.delta_base, m.state.delta_shift, m.state.auto_flip), (12, 6, false));
    assert!(run(&[0x4E, 0x4D]).state.auto_flip);
    assert_eq!(fails(&[0xB0, 7, 0x5F]), ScalerError::InvalidGlyph);
    assert!(run(&[0xB0, 255, 0x85]).state.scan_ctrl);
    assert!(!run(&[0xB0, 255, 0x85, 0xB0, 0, 0x85]).state.scan_ctrl);
    assert!(run(&[0xB8, 0x01, 0x0C, 0x85]).state.scan_ctrl);
    assert!(!run(&[0xB8, 0x01, 0x0B, 0x85]).state.scan_ctrl);
    assert!(!run(&[0xB0, 255, 0x85, 0xB8, 0x08, 0x0B, 0x85]).state.scan_ctrl);
    assert_eq!(run(&[0xB3, 1, 2, 3, 4, 0x4F, 0x7E, 0x7F, 0x8D]).stack, Vec::<u32>::new());
    assert_eq!(run(&[0xB0, 1, 0x88]).stack, vec![0]);
}

#[test]
fn vectors_from_the_stack_are_made_unit_vectors() {
    let m = run(&[0xB1, 0, 5, 0x0A]);
    assert_eq!(m.state.project_vec, Vector { x: F2dot14(0), y: F2dot14(0x4000) });
    assert_eq!(m.state.dual_prj_vec, m.state.project_vec);
    let m = run(&[0xB1, 3, 4, 0x0B]);
    assert_eq!(m.state.freedom_vec, Vector { x: F2dot14(9830), y: F2dot14(13107) });
    let m = run(&[0xB1, 0, 0, 0x0A]);
    assert_eq!(m.state.project_vec, Vector { x: F2dot14(0x4000), y: F2dot14(0) });
    let m = run(&[0xB8, 0xC0, 0x00, 0xB0, 0, 0x0B, 0x0D, 0x0C]);
    assert_eq!(m.stack, vec![(-0x4000i32) as u32, 0, 0x4000, 0]);
}

#[test]
fn measuring_points() {
    let mut m = with_points(vec![px(64, 128), px(320, 0), px(0, -64)], vec![2]);
    m.interpret(&vec![0xB0, 0, 0x46, 0xB0, 1, 0x46, 0x00, 0xB0, 0, 0x46, 0xB0, 2, 0x47]).unwrap();
    assert_eq!(m.stack, vec![64, 320, 128, (-64i32) as u32]);
    let mut m = with_points(vec![px(64, 128), px(320, 0), px(0, -64)], vec![2]);
    m.interpret(&vec![0xB1, 1, 0, 0x49, 0xB1, 0, 1, 0x49, 0xB1, 1, 0, 0x4A]).unwrap();
    assert_eq!(m.stack, vec![256, (-256i32) as u32, 256]);
    let mut m = with_points(vec![px(0, 0)], vec![0]);
    assert_eq!(m.interpret(&vec![0xB0, 1, 0x46]), Err(ScalerError::InvalidGlyph));
    let mut m = with_points(vec![px(0, 0)], vec![0]);
    assert_eq!(m.interpret(&vec![0xB1, 0, 1, 0x49]), Err(ScalerError::InvalidGlyph));
}

#[test]
fn vectors_along_lines() {
    let mut m = with_points(vec![px(0, 0), px(0, 640), px(640, 640)], vec![2]);
    m.interpret(&vec![0xB1, 1, 0, 0x06]).unwrap();
    assert_eq!(m.state.project_vec, Vector { x: F2dot14(0), y: F2dot14(0x4000) });
    let mut m = with_points(vec![px(0, 0), px(0, 640), px(640, 640)], vec![2]);
    m.interpret(&vec![0xB1, 1, 0, 0x07]).unwrap();
    assert_eq!(m.state.project_vec, Vector { x: F2dot14(-0x4000), y: F2dot14(0) });
    let mut m = with_points(vec![px(0, 0), px(0, 640), px(640, 640)], vec![2]);
    m.interpret(&vec![0xB1, 2, 1, 0x08]).unwrap();
    assert_eq!(m.state.freedom_vec, Vector { x: F2dot14(0x4000), y: F2dot14(0) });
    let mut m = with_points(vec![px(0, 0), px(0, 640)], vec![1]);
    m.glyph.points[1] = px(640, 0);
    m.interpret(&vec![0xB1, 1, 0, 0x86]).unwrap();
    assert_eq!(m.state.project_vec, Vector { x: F2dot14(0x4000), y: F2dot14(0) });
    assert_eq!(m.state.dual_prj_vec, Vector { x: F2dot14(0), y: F2dot14(0x4000) });
}

#[test]
fn moving_points_to_the_grid() {
    let mut m = with_points(vec![px(40, 10), px(100, 10)], vec![1]);
    m.interpret(&vec![0xB0, 0, 0x2F]).unwrap();
    assert_eq!(m.glyph.points[0], px(64, 10));
    assert_eq!(m.glyph.original[0], px(40, 10));
    assert_eq!(m.glyph.flags[0], 1 | 2);
    assert_eq!((m.state.rp0, m.state.rp1), (0, 0));
    let mut m = with_points(vec![px(40, 10), px(100, 10)], vec![1]);
    m.interpret(&vec![0xB0, 1, 0x2E]).unwrap();
    assert_eq!(m.glyph.points[1], px(100, 10));
    assert_eq!(m.glyph.flags[1], 1 | 2);
    assert_eq!((m.state.rp0, m.state.rp1), (1, 1));
    let mut m = with_points(vec![px(40, 10), px(100, 10)], vec![1]);
    m.interpret(&vec![0x00, 0xB0, 0, 0x2F]).unwrap();
    assert_eq!(m.glyph.points[0], px(40, 0));
    assert_eq!(m.glyph.flags[0], 1 | 4);
}

#[test]
fn moving_points_to_control_values() {
    let mut m = with_points(vec![px(70, 0)], vec![0]);
    m.interpret(&vec![0xB1, 0, 0, 0x3E]).unwrap();
    assert_eq!(m.glyph.points[0], px(77, 0));
    let mut m = with_points(vec![px(70, 0)], vec![0]);
    m.interpret(&vec![0xB1, 0, 0, 0x3F]).unwrap();
    assert_eq!(m.glyph.points[0], px(64, 0));
    let mut m = with_points(vec![px(300, 0)], vec![0]);
    m.interpret(&vec![0xB1, 0, 0, 0x3F]).unwrap();
    assert_eq!(m.glyph.points[0], px(320, 0));
    let mut m = machine();
    m.interpret(&vec![0xB0, 0, 0x13, 0xB1, 2, 0, 0x3E]).unwrap();
    assert_eq!(m.twilight.points[2], px(77, 0));
    assert_eq!(m.twilight.original[2], px(77, 0));
    let mut m = with_points(vec![px(70, 0)], vec![0]);
    assert_eq!(m.interpret(&vec![0xB1, 0, 3, 0x3E]), Err(ScalerError::InvalidGlyph));
}

#[test]
fn moving_points_relative_to_a_reference_point() {
    let mut m = with_points(vec![px(0, 0), px(100, 0)], vec![1]);
    m.glyph.points[0] = px(10, 0);
    m.interpret(&vec![0xB0, 1, 0xC0]).unwrap();
    assert_eq!(m.glyph.points[1], px(110, 0));
    assert_eq!((m.state.rp0, m.state.rp1, m.state.rp2), (0, 0, 1));
    let mut m = with_points(vec![px(0, 0), px(100, 0)], vec![1]);
    m.interpret(&vec![0xB0, 1, 0xD4]).unwrap();
    assert_eq!(m.glyph.points[1], px(128, 0));
    assert_eq!((m.state.rp0, m.state.rp1, m.state.rp2), (1, 0, 1));
    let mut m = with_points(vec![px(0, 0), px(20, 0)], vec![1]);
    m.interpret(&vec![0xB0, 1, 0xC8]).unwrap();
    assert_eq!(m.glyph.points[1], px(64, 0));
    let mut m = with_points(vec![px(0, 0), px(-20, 0)], vec![1]);
    m.interpret(&vec![0xB0, 1, 0xC8]).unwrap();
    assert_eq!(m.glyph.points[1], px(-64, 0));
    let mut m = with_points(vec![px(0, 0), px(70, 0)], vec![1]);
    m.interpret(&vec![0xB1, 1, 0, 0xE0]).unwrap();
    assert_eq!(m.glyph.points[1], px(77, 0));
    let mut m = with_points(vec![px(0, 0), px(-70, 0)], vec![1]);
    m.interpret(&vec![0xB1, 1, 0, 0xE0]).unwrap();
    assert_eq!(m.glyph.points[1], px(-77, 0));
    let mut m = with_points(vec![px(0, 0), px(-70, 0)], vec![1]);
    m.interpret(&vec![0x4E, 0xB1, 1, 0, 0xE0]).unwrap();
    assert_eq!(m.glyph.points[1], px(77, 0));
    let mut m = with_points(vec![px(0, 0), px(300, 0)], vec![1]);
    m.interpret(&vec![0xB1, 1, 0, 0xE4]).unwrap();
    assert_eq!(m.glyph.points[1], px(320, 0));
    let mut m = with_points(vec![px(0, 0), px(70, 0)], vec![1]);
    m.interpret(&vec![0xB1, 1, 0, 0xE4]).unwrap();
    assert_eq!(m.glyph.points[1], px(64, 0));
    let mut m = with_points(vec![px(0, 0), px(70, 0)], vec![1]);
    m.interpret(&vec![0xB1, 1, 200, 0x3A]).unwrap();
    assert_eq!(m.glyph.points[1], px(200, 0));
    assert_eq!((m.state.rp0, m.state.rp1, m.state.rp2), (0, 0, 1));
    let mut m = with_points(vec![px(0, 0), px(70, 0)], vec![1]);
    m.interpret(&vec![0xB1, 1, 200, 0x3B]).unwrap();
    assert_eq!(m.state.rp0, 1);
}

#[test]
fn setting_coordinates_and_aligning() {
    let mut m = with_points(vec![px(10, 20), px(50, 20)], vec![1]);
    m.interpret(&vec![0xB1, 0, 100, 0x48]).unwrap();
    assert_eq!(m.glyph.points[0], px(100, 20));
    let mut m = with_points(vec![px(10, 20), px(50, 20)], vec![1]);
    m.interpret(&vec![0xB1, 0, 1, 0x27]).unwrap();
    assert_eq!(m.glyph.points, vec![px(30, 20), px(30, 20)]);
    let mut m = with_points(vec![px(10, 20), px(50, 20)], vec![1]);
    m.interpret(&vec![0xB0, 1, 0x3C]).unwrap();
    assert_eq!(m.glyph.points[1], px(10, 20));
    let mut m = with_points(vec![px(10, 20), px(50, 20)], vec![1]);
    m.interpret(&vec![0xB0, 0, 0x2E, 0xB0, 0, 0x29]).unwrap();
    assert_eq!(m.glyph.flags[0], 1);
}

#[test]
fn loop_counter_repeats_and_goes_back_to_one() {
    let mut m = with_points(vec![px(0, 0), px(10, 0), px(20, 0), px(30, 0)], vec![3]);
    m.interpret(&vec![0xB0, 3, 0x17, 0xB3, 1, 2, 3, 32, 0x38]).unwrap();
    assert_eq!(m.glyph.points, vec![px(0, 0), px(42, 0), px(52, 0), px(62, 0)]);
    assert_eq!(m.state.loopv, 1);
    assert_eq!(m.stack, Vec::<u32>::new());
    assert_eq!(m.glyph.flags, vec![1, 3, 3, 3]);
    let mut m = with_points(vec![px(0, 0), px(10, 0)], vec![1]);
    assert_eq!(
        m.interpret(&vec![0xB0, 2, 0x17, 0xB1, 1, 32, 0x38]),
        Err(ScalerError::StackUnderflow(6))
    );
    let mut m = with_points(vec![px(0, 0), px(10, 0)], vec![1]);
    m.interpret(&vec![0xB0, 0, 0x17, 0xB1, 1, 32, 0x38]).unwrap();
    assert_eq!(m.stack, vec![1]);
    assert_eq!(m.state.loopv, 1);
    let mut m = with_points(vec![px(0, 0), px(10, 0)], vec![1]);
    m.interpret(&vec![0xB1, 0, 1, 0x80, 0x80]).unwrap();
    assert_eq!(m.glyph.flags, vec![0, 0]);
}

#[test]
fn shifting_points_contours_and_zones() {
    let mut m = with_points(vec![px(0, 0), px(10, 0), px(20, 0), px(30, 0)], vec![1, 3]);
    m.glyph.points[0] = px(5, 0);
    m.interpret(&vec![0xB0, 0, 0x11, 0xB0, 2, 0x33]).unwrap();
    assert_eq!(m.glyph.points[2], px(25, 0));
    let mut m = with_points(vec![px(0, 0), px(10, 0), px(20, 0), px(30, 0)], vec![1, 3]);
    m.glyph.points[0] = px(5, 0);
    m.interpret(&vec![0xB0, 0, 0x11, 0xB0, 1, 0x35]).unwrap();
    assert_eq!(m.glyph.points, vec![px(5, 0), px(10, 0), px(25, 0), px(35, 0)]);
    assert_eq!(m.glyph.flags, vec![1, 1, 3, 3]);
    let mut m = with_points(vec![px(0, 0), px(10, 0), px(20, 0), px(30, 0)], vec![1, 3]);
    m.glyph.points[0] = px(5, 0);
    m.interpret(&vec![0xB0, 0, 0x11, 0xB0, 0, 0x35]).unwrap();
    assert_eq!(m.glyph.points, vec![px(5, 0), px(15, 0), px(20, 0), px(30, 0)]);
    let mut m = with_points(vec![px(0, 0), px(10, 0), px(20, 0), px(30, 0)], vec![1, 3]);
    m.glyph.points[0] = px(5, 0);
    m.interpret(&vec![0xB0, 0, 0x11, 0xB0, 1, 0x37]).unwrap();
    assert_eq!(m.glyph.points, vec![px(5, 0), px(15, 0), px(25, 0), px(35, 0)]);
    assert_eq!(m.glyph.flags, vec![1, 1, 1, 1]);
    let mut m = with_points(vec![px(0, 0), px(10, 0)], vec![1]);
    assert_eq!(m.interpret(&vec![0xB0, 2, 0x35]), Err(ScalerError::InvalidGlyph));
    let mut m = with_points(vec![px(0, 0), px(10, 0)], vec![1]);
    assert_eq!(m.interpret(&vec![0xB0, 2, 0x37]), Err(ScalerError::InvalidGlyph));
}

#[test]
fn flipping_ranges() {
    let mut m = with_points(vec![px(0, 0), px(10, 0), px(20, 0), px(30, 0)], vec![3]);
    m.interpret(&vec![0xB1, 1, 2, 0x82]).unwrap();
    assert_eq!(m.glyph.flags, vec![1, 0, 0, 1]);
    m.interpret(&vec![0xB1, 2, 3, 0x81]).unwrap();
    assert_eq!(m.glyph.flags, vec![1, 0, 1, 1]);
    m.interpret(&vec![0xB1, 3, 1, 0x82]).unwrap();
    assert_eq!(m.glyph.flags, vec![1, 0, 1, 1]);
    assert_eq!(m.interpret(&vec![0xB1, 0, 4, 0x81]), Err(ScalerError::InvalidGlyph));
}

#[test]
fn interpolating_between_reference_points() {
    let mut m = with_points(vec![px(0, 0), px(100, 0), px(50, 0)], vec![2]);
    m.glyph.points[1] = px(200, 0);
    m.interpret(&vec![0xB0, 0, 0x11, 0xB0, 1, 0x12, 0xB0, 2, 0x39]).unwrap();
    assert_eq!(m.glyph.points[2], px(100, 0));
}

#[test]
fn delta_exceptions_apply_at_their_size() {
    let mut m = with_points(vec![px(0, 0)], vec![0]);
    m.interpret(&vec![0xB2, 0x3F, 0, 1, 0x5D]).unwrap();
    assert_eq!(m.glyph.points[0], px(64, 0));
    let mut m = with_points(vec![px(0, 0)], vec![0]);
    m.interpret(&vec![0xB2, 0x30, 0, 1, 0x5D]).unwrap();
    assert_eq!(m.glyph.points[0], px(-64, 0));
    let mut m = with_points(vec![px(0, 0)], vec![0]);
    m.interpret(&vec![0xB2, 0x38, 0, 1, 0x5D]).unwrap();
    assert_eq!(m.glyph.points[0], px(8, 0));
    let mut m = with_points(vec![px(0, 0)], vec![0]);
    m.interpret(&vec![0xB2, 0x2F, 0, 1, 0x5D]).unwrap();
    assert_eq!(m.glyph.points[0], px(0, 0));
    let mut m = with_points(vec![px(0, 0)], vec![0]);
    m.interpret(&vec![0xB2, 0x3F, 0, 1, 0x71]).unwrap();
    assert_eq!(m.glyph.points[0], px(0, 0));
    let mut m = with_points(vec![px(0, 0)], vec![0]);
    m.interpret(&vec![0xB4, 0x37, 0, 0x39, 0, 2, 0x5D]).unwrap();
    assert_eq!(m.glyph.points[0], px(8, 0));
    let mut m = machine();
    m.interpret(&vec![0xB2, 0x3A, 1, 1, 0x73, 0xB0, 1, 0x45]).unwrap();
    assert_eq!(m.stack, vec![(-154i32 + 24) as u32]);
    let mut m = machine();
    assert_eq!(m.interpret(&vec![0xB2, 0x3A, 3, 1, 0x73]), Err(ScalerError::InvalidGlyph));
    let mut m = with_points(vec![px(0, 0)], vec![0]);
    assert_eq!(m.interpret(&vec![0xB1, 0, 1, 0x5D]), Err(ScalerError::StackUnderflow(3)));
    let mut m = with_points(vec![px(0, 0)], vec![0]);
    m.interpret(&vec![0xB0, 0, 0x5D]).unwrap();
    assert_eq!(m.stack, Vec::<u32>::new());
}

#[test]
fn crossing_of_two_lines() {
    let mut m = with_points(
        vec![px(0, 0), px(0, 0), px(640, 640), px(0, 640), px(640, 0), px(7, 7)],
        vec![5],
    );
    m.interpret(&vec![0xB4, 5, 1, 2, 3, 4, 0x0F]).unwrap();
    assert_eq!(m.glyph.points[5], px(320, 320));
    assert_eq!(m.glyph.flags[5], 1 | 2 | 4);
    let mut m = with_points(vec![px(0, 0), px(64, 0), px(0, 64), px(64, 64), px(9, 9)], vec![4]);
    m.interpret(&vec![0xB4, 4, 0, 1, 2, 3, 0x0F]).unwrap();
    assert_eq!(m.glyph.points[4], px(32, 32));
}

#[test]
fn untouched_points_follow_the_touched_ones() {
    let mut m = with_points(vec![px(0, 0), px(50, 0), px(100, 0), px(150, 0)], vec![3]);
    m.glyph.points[0] = px(0, 0);
    m.glyph.points[2] = px(200, 0);
    m.glyph.flags = vec![1 | 2, 1, 1 | 2, 1];
    m.interpret(&vec![0x31]).unwrap();
    assert_eq!(m.glyph.points, vec![px(0, 0), px(100, 0), px(200, 0), px(250, 0)]);
    let mut m = with_points(vec![px(0, 0), px(50, 0), px(100, 0)], vec![2]);
    m.glyph.points[1] = px(60, 0);
    m.glyph.flags = vec![1, 1 | 2, 1];
    m.interpret(&vec![0x31]).unwrap();
    assert_eq!(m.glyph.points, vec![px(10, 0), px(60, 0), px(110, 0)]);
    let mut m = with_points(vec![px(0, 0), px(50, 0), px(100, 0)], vec![2]);
    m.glyph.points[1] = px(60, 0);
    m.glyph.flags = vec![1, 1 | 2, 1];
    m.interpret(&vec![0x30]).unwrap();
    assert_eq!(m.glyph.points, vec![px(0, 0), px(60, 0), px(100, 0)]);
    let mut m = with_points(vec![px(0, 10), px(0, 20), px(0, 30), px(5, 5), px(6, 6)], vec![2, 4]);
    m.glyph.points[0] = px(0, 12);
    m.glyph.flags = vec![1 | 4, 1, 1, 1, 1];
    m.interpret(&vec![0x30]).unwrap();
    assert_eq!(m.glyph.points, vec![px(0, 12), px(0, 22), px(0, 32), px(5, 5), px(6, 6)]);
}

#[test]
fn stack_primitives() {
    let mut m = Interp::new(&profile(2), &vec![], &vec![], &vec![], 12, 72, 1000);
    assert_eq!(m.pop(), Err(ScalerError::StackUnderflow(0)));
    assert_eq!(m.push(5), Ok(()));
    assert_eq!(m.push(0xFFFF_FFC0), Ok(()));
    assert_eq!(m.push(7), Err(ScalerError::InvalidGlyph));
    assert_eq!(m.stack, vec![5, 0xFFFF_FFC0]);
    assert_eq!(m.pop_f26dot6(), Ok(F26d6::from_bits(-64)));
    assert_eq!(m.pop_signed(), Ok(5));
    assert_eq!(m.pop_signed(), Err(ScalerError::StackUnderflow(0)));
    assert_eq!(m.pop_f26dot6(), Err(ScalerError::StackUnderflow(0)));
    m.push(1).unwrap();
    m.pc = 9;
    m.reset();
    assert_eq!(m.stack, Vec::<u32>::new());
    assert_eq!(m.pc, 0);
    assert!(m.is_wf());
    m.state.zp0 = 2;
    assert!(!m.is_wf());
}

#[test]
fn a_machine_and_its_copy_go_separate_ways() {
    let mut m = machine();
    let mut copy = m.duplicate();
    copy.interpret(&vec![0xB1, 1, 2, 0x60, 0xB1, 0, 9, 0x42]).unwrap();
    assert_eq!(copy.stack, vec![3]);
    assert_eq!(copy.storage[0], 9);
    assert_eq!(m.stack, Vec::<u32>::new());
    assert_eq!(m.storage[0], 0);
    m.interpret(&vec![0xB0, 4]).unwrap();
    assert_eq!(m.stack, vec![4]);
}

#[test]
fn sign_extension_of_words() {
    assert_eq!(sign_extend(0), 0);
    assert_eq!(sign_extend(0x7FFF), 0x7FFF);
    assert_eq!(sign_extend(0x8000), 0xFFFF_8000);
    assert_eq!(sign_extend(0xFFFF), 0xFFFF_FFFF);
}

#[test]
fn instructions_change_the_depth_by_their_fixed_amounts() {
    let cases: Vec<(u8, i64)> = vec![
        (0x00, 0),
        (0x0C, 2),
        (0x0D, 2),
        (0x0E, 0),
        (0x17, -1),
        (0x18, 0),
        (0x1A, -1),
        (0x20, 1),
        (0x21, -1),
        (0x23, 0),
        (0x24, 1),
        (0x4B, 1),
        (0x4C, 1),
        (0x4D, 0),
        (0x4F, -1),
        (0x50, -1),
        (0x54, -1),
        (0x56, 0),
        (0x5A, -1),
        (0x5C, 0),
        (0x5E, -1),
        (0x60, -1),
        (0x61, -1),
        (0x63, -1),
        (0x64, 0),
        (0x66, 0),
        (0x68, 0),
        (0x6C, 0),
        (0x76, -1),
        (0x7E, -1),
        (0x85, -1),
        (0x88, 0),
        (0x8A, 0),
        (0x8B, -1),
        (0x8C, -1),
        (0x8D, -1),
    ];
    for (op, change) in cases {
        let mut m = machine();
        m.stack = vec![3, 2, 1];
        m.interpret(&vec![op]).unwrap();
        assert_eq!(m.stack.len() as i64, 3 + change, "instruction {:#x}", op);
    }
    let mut m = with_points(vec![px(0, 0), px(64, 0), px(128, 64), px(0, 64), px(5, 5)], vec![4]);
    for (op, change) in [
        (0x46u8, 0i64),
        (0x49, -1),
        (0x06, -2),
        (0x2E, -1),
        (0x3E, -2),
        (0xC0, -1),
        (0xE0, -2),
        (0x3A, -2),
        (0x48, -2),
        (0x27, -2),
        (0x29, -1),
        (0x32, -1),
        (0x38, -2),
        (0x39, -1),
        (0x3C, -1),
        (0x80, -1),
        (0x34, -1),
        (0x36, -1),
        (0x81, -2),
        (0x0F, -5),
        (0x30, 0),
        (0x31, 0),
        (0x10, -1),
        (0x13, -1),
    ] {
        m.state = InterpState::new();
        m.stack = vec![9, 9, 4, 2, 1, 0, 0];
        m.interpret(&vec![op]).unwrap();
        assert_eq!(m.stack.len() as i64, 7 + change, "instruction {:#x}", op);
    }
    let mut m = with_points(vec![px(0, 0), px(64, 0)], vec![1]);
    m.stack = vec![7, 0x11, 0, 0x12, 1, 2];
    m.interpret(&vec![0x5D]).unwrap();
    assert_eq!(m.stack, vec![7]);
    let mut m = with_points(vec![px(0, 0), px(64, 0)], vec![1]);
    m.stack = vec![7, 0, 1, 0];
    m.state.loopv = 3;
    m.interpret(&vec![0x3C]).unwrap();
    assert_eq!(m.stack, vec![7]);
}
