use inference_harness::arena::checked_required_arena_bytes;
use inference_harness::arena::plan_arena;
use inference_harness::arena::required_arena_bytes;
use inference_harness::arena::ArenaLayout;
use inference_harness::arena::ModelConfig;
use inference_harness::arena::TensorArena;

fn reference_config() -> ModelConfig {
    ModelConfig {
        input_elements: 2880,
        output_elements: 3,
        margin_elements: 2000,
        activation_elements: 4464,
    }
}

#[test]
fn requirement_is_element_size_times_total_elements() {
    let cfg = reference_config();
    // 4 * (2880 + 3 + 2000 + 4464)
    assert_eq!(required_arena_bytes(&cfg), 37388);
}

#[test]
fn requirement_of_empty_config_is_zero() {
    let cfg = ModelConfig {
        input_elements: 0,
        output_elements: 0,
        margin_elements: 0,
        activation_elements: 0,
    };
    assert_eq!(required_arena_bytes(&cfg), 0);
}

#[test]
fn checked_requirement_agrees_with_unchecked() {
    let cfg = reference_config();
    assert_eq!(checked_required_arena_bytes(&cfg), Some(37388));
}

#[test]
fn checked_requirement_reports_overflow() {
    let cfg = ModelConfig {
        input_elements: usize::MAX,
        output_elements: usize::MAX,
        margin_elements: 0,
        activation_elements: 0,
    };
    assert_eq!(checked_required_arena_bytes(&cfg), None);
}

#[test]
fn planned_regions_tile_an_exactly_sized_arena() {
    let cfg = reference_config();
    let layout = plan_arena(&cfg, 37388).unwrap();
    assert_eq!(
        layout,
        ArenaLayout {
            input_offset: 0,
            input_bytes: 11520,
            output_offset: 11520,
            output_bytes: 12,
            scratch_offset: 11532,
            // 4 * (2000 + 4464): exactly the margin and activation storage.
            scratch_bytes: 25856,
        }
    );
}

#[test]
fn extra_arena_bytes_go_to_the_scratch_region() {
    let cfg = reference_config();
    let layout = plan_arena(&cfg, 40000).unwrap();
    assert_eq!(layout.scratch_offset, 11532);
    assert_eq!(layout.scratch_bytes, 40000 - 11532);
}

#[test]
fn planning_fails_one_byte_below_the_requirement() {
    let cfg = reference_config();
    assert_eq!(plan_arena(&cfg, 37387), None);
    assert!(plan_arena(&cfg, 37388).is_some());
}

#[test]
fn arena_has_exactly_the_requested_size() {
    let arena = TensorArena::new(37388);
    assert_eq!(arena.len(), 37388);
    let empty = TensorArena::new(0);
    assert_eq!(empty.len(), 0);
}
