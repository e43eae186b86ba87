use deterministic_ball_sim::schedule::{
    merge_sort_plan, result_buffer, sort_plan, MergeSortParams, SortBuffer, SORT_KEYS,
    SORT_STAGES,
};

fn flatten(stages: &[Vec<MergeSortParams>]) -> Vec<MergeSortParams> {
    stages.iter().flat_map(|s| s.iter().copied()).collect()
}

#[test]
fn gpu_plan_has_eleven_stages_of_growing_length() {
    let plan = merge_sort_plan();
    assert_eq!(plan.stages.len(), 11);
    for (s, passes) in plan.stages.iter().enumerate() {
        assert_eq!(passes.len(), s + 1);
    }
    assert_eq!(1u32 << SORT_STAGES, SORT_KEYS);
}

#[test]
fn gpu_plan_runs_sixty_six_passes_and_returns_the_input_buffer() {
    let plan = merge_sort_plan();
    assert_eq!(flatten(&plan.stages).len(), 66);
    assert_eq!(plan.final_direction, 0);
    assert_eq!(plan.result_buffer(), SortBuffer::List);
}

#[test]
fn first_stages_have_the_bitonic_parameters() {
    let plan = merge_sort_plan();
    assert_eq!(
        plan.stages[0],
        vec![MergeSortParams { order_of_pass: 1, direction: 0, order_of_stage: 1 }]
    );
    assert_eq!(
        plan.stages[1],
        vec![
            MergeSortParams { order_of_pass: 2, direction: 1, order_of_stage: 2 },
            MergeSortParams { order_of_pass: 1, direction: 0, order_of_stage: 2 },
        ]
    );
    assert_eq!(
        plan.stages[2],
        vec![
            MergeSortParams { order_of_pass: 3, direction: 1, order_of_stage: 3 },
            MergeSortParams { order_of_pass: 2, direction: 0, order_of_stage: 3 },
            MergeSortParams { order_of_pass: 1, direction: 1, order_of_stage: 3 },
        ]
    );
    let last = &plan.stages[10];
    assert_eq!(last[0], MergeSortParams { order_of_pass: 11, direction: 1, order_of_stage: 11 });
    assert_eq!(last[10], MergeSortParams { order_of_pass: 1, direction: 1, order_of_stage: 11 });
}

#[test]
fn directions_alternate_over_all_passes() {
    let plan = merge_sort_plan();
    let passes = flatten(&plan.stages);
    for (k, p) in passes.iter().enumerate() {
        assert_eq!(p.direction, (k % 2) as u32);
    }
}

#[test]
fn every_stage_counts_its_pass_order_down_to_one() {
    let plan = sort_plan(7);
    for (s, passes) in plan.stages.iter().enumerate() {
        let stage = s as u32 + 1;
        for (j, p) in passes.iter().enumerate() {
            assert_eq!(p.order_of_stage, stage);
            assert_eq!(p.order_of_pass, stage - j as u32);
        }
    }
}

#[test]
fn empty_plan_keeps_the_input_buffer() {
    let plan = sort_plan(0);
    assert!(plan.stages.is_empty());
    assert_eq!(plan.final_direction, 0);
    assert_eq!(plan.result_buffer(), SortBuffer::List);
}

#[test]
fn final_buffer_follows_stage_count_modulo_four() {
    for n in 0u32..16 {
        let plan = sort_plan(n);
        let expected = if n % 4 == 0 || n % 4 == 3 { SortBuffer::List } else { SortBuffer::Second };
        assert_eq!(plan.result_buffer(), expected, "stages = {}", n);
        let total = flatten(&plan.stages).len() as u32;
        assert_eq!(2 * total, n * (n + 1));
    }
}

#[test]
fn result_buffer_matches_direction() {
    assert_eq!(result_buffer(0), SortBuffer::List);
    assert_eq!(result_buffer(1), SortBuffer::Second);
    assert_eq!(result_buffer(7), SortBuffer::Second);
}

#[test]
fn uniform_bytes_are_the_three_words_in_machine_order() {
    let p = MergeSortParams { order_of_pass: 0x0102_0304, direction: 1, order_of_stage: 11 };
    let bytes = p.uniform_bytes();
    assert_eq!(bytes.len(), 12);
    let mut expected = Vec::new();
    expected.extend_from_slice(&0x0102_0304u32.to_ne_bytes());
    expected.extend_from_slice(&1u32.to_ne_bytes());
    expected.extend_from_slice(&11u32.to_ne_bytes());
    assert_eq!(bytes, expected);
    let le = [4u8, 3, 2, 1, 1, 0, 0, 0, 11, 0, 0, 0];
    let be = [1u8, 2, 3, 4, 0, 0, 0, 1, 0, 0, 0, 11];
    assert!(bytes == le || bytes == be);
}
