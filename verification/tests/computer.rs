use life_compute::computer::{
    BindGroup, BindGroupEntry, BindGroupLayoutEntry, BufferBindingType, BufferSlot, CellBuffer,
    Computer, ComputerFactory, ENTRY_POINT, PARAMETER_BUFFER_SIZE,
};
use life_compute::grid::GridDimensions;
use life_compute::rules::Rule;
use life_compute::seeding::initial_cells;

fn words_of(bytes: &[u8]) -> Vec<u32> {
    bytes
        .chunks_exact(4)
        .map(|chunk| u32::from_ne_bytes([chunk[0], chunk[1], chunk[2], chunk[3]]))
        .collect()
}

fn make(factory: &mut ComputerFactory, width: u32, height: u32, seed: u64, density: u8) -> Computer {
    let dimensions = GridDimensions::new(width, height).expect("multiples of eight");
    factory.create(dimensions, &Rule::conways_life(), seed, density)
}

const FROM_0_TO_1: BindGroup = BindGroup { from_buffer: CellBuffer::Zero, to_buffer: CellBuffer::One };
const FROM_1_TO_0: BindGroup = BindGroup { from_buffer: CellBuffer::One, to_buffer: CellBuffer::Zero };

#[test]
fn layout_has_the_four_slots_of_the_kernel() {
    let factory = ComputerFactory::new();
    let expected = vec![
        BindGroupLayoutEntry { binding: 0, ty: BufferBindingType::ReadOnlyStorage },
        BindGroupLayoutEntry { binding: 1, ty: BufferBindingType::Storage },
        BindGroupLayoutEntry { binding: 2, ty: BufferBindingType::Uniform },
        BindGroupLayoutEntry { binding: 3, ty: BufferBindingType::Uniform },
    ];
    assert_eq!(factory.bind_group_layout(), &expected);
}

#[test]
fn entry_point_and_parameter_size() {
    assert_eq!(ENTRY_POINT, "main");
    assert_eq!(PARAMETER_BUFFER_SIZE, 8);
}

#[test]
fn parameter_buffers_start_at_zero() {
    let factory = ComputerFactory::new();
    assert_eq!(factory.size_buffer(), &[0u8; 8]);
    assert_eq!(factory.rule_buffer(), &[0u8; 8]);
}

#[test]
fn create_writes_size_and_rule() {
    let mut factory = ComputerFactory::new();
    let _computer = make(&mut factory, 512, 256, 1, 12);
    assert_eq!(factory.size_buffer().len() as u64, PARAMETER_BUFFER_SIZE);
    assert_eq!(factory.rule_buffer().len() as u64, PARAMETER_BUFFER_SIZE);
    assert_eq!(words_of(factory.size_buffer()), vec![512, 256]);
    assert_eq!(words_of(factory.rule_buffer()), vec![0b1000, 0b1100]);
}

#[test]
fn parameter_bytes_are_the_words_in_memory() {
    let mut factory = ComputerFactory::new();
    let _computer = make(&mut factory, 0x0308, 0x0110, 1, 0);
    let mut expected = 0x0308u32.to_ne_bytes().to_vec();
    expected.extend_from_slice(&0x0110u32.to_ne_bytes());
    assert_eq!(factory.size_buffer(), &expected[..]);
    let mut masks = 0b1000u32.to_ne_bytes().to_vec();
    masks.extend_from_slice(&0b1100u32.to_ne_bytes());
    assert_eq!(factory.rule_buffer(), &masks[..]);
}

#[test]
fn later_simulation_overwrites_the_shared_parameters() {
    let mut factory = ComputerFactory::new();
    let first = make(&mut factory, 64, 64, 1, 12);
    let dimensions = GridDimensions::new(128, 256).expect("multiples of eight");
    let second = factory.create(dimensions, &Rule::gems(), 2, 15);
    assert_eq!(words_of(factory.size_buffer()), vec![128, 256]);
    assert_eq!(words_of(factory.rule_buffer()), vec![0b0_1011_1000, 0b1_0111_0000]);
    assert_eq!(first.dimensions().width(), 64);
    assert_eq!(second.dimensions().width(), 128);
    assert_eq!(second.dimensions().height(), 256);
}

#[test]
fn new_simulation_starts_with_buffer_0_current() {
    let mut factory = ComputerFactory::new();
    let computer = make(&mut factory, 64, 64, 1, 12);
    assert!(computer.currently_computed_is_0());
    assert_eq!(computer.dimensions().width(), 64);
    assert_eq!(computer.dimensions().height(), 64);
}

#[test]
fn first_generation_is_that_of_the_seed() {
    let mut factory = ComputerFactory::new();
    let computer = make(&mut factory, 64, 72, 2024, 12);
    assert_eq!(words_of(computer.cells_buffer_0()), initial_cells(2024, 64 * 72, 12));
    assert_eq!(computer.cells_buffer_0().len(), 4 * 64 * 72);
    assert_eq!(computer.cells_buffer_size(), 4 * 64 * 72);
}

#[test]
fn two_simulations_from_one_seed_start_alike() {
    let mut factory = ComputerFactory::new();
    let first = make(&mut factory, 128, 64, 77, 30);
    let second = make(&mut factory, 128, 64, 77, 30);
    assert_eq!(first.cells_buffer_0(), second.cells_buffer_0());
    let mut other_factory = ComputerFactory::new();
    let third = make(&mut other_factory, 128, 64, 77, 30);
    assert_eq!(first.cells_buffer_0(), third.cells_buffer_0());
}

#[test]
fn first_generation_does_not_depend_on_the_rule() {
    let mut factory = ComputerFactory::new();
    let dimensions = GridDimensions::new(64, 64).expect("multiples of eight");
    let classic = factory.create(dimensions, &Rule::conways_life(), 5, 12);
    let gems = factory.create(dimensions, &Rule::gems(), 5, 12);
    assert_eq!(classic.cells_buffer_0(), gems.cells_buffer_0());
}

#[test]
fn first_generation_at_the_extreme_densities() {
    let mut factory = ComputerFactory::new();
    let dead = make(&mut factory, 64, 64, 3, 0);
    assert!(words_of(dead.cells_buffer_0()).iter().all(|cell| *cell == 0));
    let alive = make(&mut factory, 64, 64, 3, 100);
    assert!(words_of(alive.cells_buffer_0()).iter().all(|cell| *cell == 1));
    assert_eq!(alive.cells_buffer_0(), &1u32.to_ne_bytes().repeat(4096)[..]);
}

#[test]
fn bind_groups_of_the_two_directions() {
    let mut factory = ComputerFactory::new();
    let computer = make(&mut factory, 64, 64, 1, 12);
    assert_eq!(computer.compute_bind_group_from_0_to_1(), FROM_0_TO_1);
    assert_eq!(computer.compute_bind_group_from_1_to_0(), FROM_1_TO_0);
}

#[test]
fn entries_bind_source_destination_size_and_rule() {
    let expected = vec![
        BindGroupEntry { binding: 0, buffer: BufferSlot::Cells(CellBuffer::Zero) },
        BindGroupEntry { binding: 1, buffer: BufferSlot::Cells(CellBuffer::One) },
        BindGroupEntry { binding: 2, buffer: BufferSlot::Size },
        BindGroupEntry { binding: 3, buffer: BufferSlot::Rule },
    ];
    assert_eq!(FROM_0_TO_1.entries(), expected);
    let reversed = vec![
        BindGroupEntry { binding: 0, buffer: BufferSlot::Cells(CellBuffer::One) },
        BindGroupEntry { binding: 1, buffer: BufferSlot::Cells(CellBuffer::Zero) },
        BindGroupEntry { binding: 2, buffer: BufferSlot::Size },
        BindGroupEntry { binding: 3, buffer: BufferSlot::Rule },
    ];
    assert_eq!(FROM_1_TO_0.entries(), reversed);
}

#[test]
fn phase_after_one_and_two_generations() {
    let mut factory = ComputerFactory::new();
    let mut computer = make(&mut factory, 64, 64, 1, 12);
    assert!(computer.currently_computed_is_0());
    computer.enqueue();
    assert!(!computer.currently_computed_is_0());
    computer.enqueue();
    assert!(computer.currently_computed_is_0());
}

#[test]
fn phase_has_period_two() {
    let mut factory = ComputerFactory::new();
    let mut computer = make(&mut factory, 64, 64, 1, 12);
    for generation in 0..101u32 {
        assert_eq!(computer.currently_computed_is_0(), generation % 2 == 0);
        let dispatch = computer.enqueue();
        let expected = if generation % 2 == 0 { FROM_0_TO_1 } else { FROM_1_TO_0 };
        assert_eq!(dispatch.bind_group, expected);
        let written_is_0 = dispatch.bind_group.to_buffer == CellBuffer::Zero;
        assert_eq!(computer.currently_computed_is_0(), written_is_0);
    }
}

#[test]
fn each_dispatch_reads_what_the_last_one_wrote() {
    let mut factory = ComputerFactory::new();
    let mut computer = make(&mut factory, 64, 64, 1, 12);
    let mut last = computer.enqueue();
    for _ in 0..10 {
        let next = computer.enqueue();
        assert_eq!(next.bind_group.from_buffer, last.bind_group.to_buffer);
        assert_ne!(next.bind_group.from_buffer, next.bind_group.to_buffer);
        last = next;
    }
}

#[test]
fn dispatch_of_512_by_256() {
    let mut factory = ComputerFactory::new();
    let mut computer = make(&mut factory, 512, 256, 1, 0);
    let dispatch = computer.enqueue();
    assert_eq!(
        (dispatch.workgroup_count_x, dispatch.workgroup_count_y, dispatch.workgroup_count_z),
        (64, 32, 1)
    );
}

#[test]
fn dispatch_of_64_by_64() {
    let mut factory = ComputerFactory::new();
    let mut computer = make(&mut factory, 64, 64, 1, 0);
    let dispatch = computer.enqueue();
    assert_eq!(
        (dispatch.workgroup_count_x, dispatch.workgroup_count_y, dispatch.workgroup_count_z),
        (8, 8, 1)
    );
}

#[test]
fn dispatch_extent_stays_the_same_over_generations() {
    let mut factory = ComputerFactory::new();
    let mut computer = make(&mut factory, 128, 2048, 1, 0);
    for _ in 0..5 {
        let dispatch = computer.enqueue();
        assert_eq!(dispatch.workgroup_count_x, 16);
        assert_eq!(dispatch.workgroup_count_y, 256);
        assert_eq!(dispatch.workgroup_count_z, 1);
    }
    assert_eq!(computer.dimensions().width(), 128);
    assert_eq!(computer.cells_buffer_size(), 4 * 128 * 2048);
}

#[test]
fn enqueue_leaves_the_first_generation_alone() {
    let mut factory = ComputerFactory::new();
    let mut computer = make(&mut factory, 64, 64, 9, 50);
    let before = computer.cells_buffer_0().to_vec();
    computer.enqueue();
    computer.enqueue();
    computer.enqueue();
    assert_eq!(computer.cells_buffer_0(), &before[..]);
}

#[test]
fn no_simulation_of_a_width_of_ten() {
    assert!(GridDimensions::new(10, 8).is_none());
}
