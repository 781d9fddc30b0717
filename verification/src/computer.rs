//! The factory of simulations and the simulation itself, as far as the host
//! decides: what the kernel finds at each of its four binding slots, what the
//! parameter buffers hold, which of the two cell buffers is read and which is
//! written in each generation, and how many workgroups are dispatched.

use crate::grid::GridDimensions;
use crate::payload::{is_memory_image, words_as_bytes};
use crate::rules::Rule;
use crate::seeding::{initial_cells, seeded_cells};
use vstd::prelude::*;

verus! {

/// The name of the kernel's entry point.
pub const ENTRY_POINT: &'static str = "main";

/// The size of each of the two parameter buffers, in bytes: two 32-bit
/// words.
pub const PARAMETER_BUFFER_SIZE: u64 = 8;

/// The slot of the cell buffer that a dispatch reads.
pub const SOURCE_BINDING: u32 = 0;

/// The slot of the cell buffer that a dispatch writes.
pub const DESTINATION_BINDING: u32 = 1;

/// The slot of the grid's width and height.
pub const SIZE_BINDING: u32 = 2;

/// The slot of the rule's two masks.
pub const RULE_BINDING: u32 = 3;

/// How the kernel uses the buffer at a slot.
#[derive(Clone, Copy, Debug, PartialEq, Eq, Structural)]
pub enum BufferBindingType {
    /// A storage buffer that the kernel only reads.
    ReadOnlyStorage,
    /// A storage buffer that the kernel reads and writes.
    Storage,
    /// A small block of parameters.
    Uniform,
}

/// One slot of the kernel's binding layout.
#[derive(Clone, Copy, Debug, PartialEq, Eq, Structural)]
pub struct BindGroupLayoutEntry {
    pub binding: u32,
    pub ty: BufferBindingType,
}

/// One of the two cell buffers of a simulation.
#[derive(Clone, Copy, Debug, PartialEq, Eq, Structural)]
pub enum CellBuffer {
    Zero,
    One,
}

/// A buffer that can stand at a slot.
#[derive(Clone, Copy, Debug, PartialEq, Eq, Structural)]
pub enum BufferSlot {
    Cells(CellBuffer),
    /// The factory's buffer of the grid's width and height.
    Size,
    /// The factory's buffer of the rule's two masks.
    Rule,
}

/// The buffer bound at one slot.
#[derive(Clone, Copy, Debug, PartialEq, Eq, Structural)]
pub struct BindGroupEntry {
    pub binding: u32,
    pub buffer: BufferSlot,
}

/// The bindings of one direction of the ping-pong: the cell buffer that is
/// read and the one that is written. The two parameter buffers are bound in
/// both directions.
#[derive(Clone, Copy, Debug, PartialEq, Eq, Structural)]
pub struct BindGroup {
    pub from_buffer: CellBuffer,
    pub to_buffer: CellBuffer,
}

/// One dispatch of the kernel: its bindings and the number of workgroups
/// along each axis.
#[derive(Clone, Copy, Debug, PartialEq, Eq, Structural)]
pub struct Dispatch {
    pub bind_group: BindGroup,
    pub workgroup_count_x: u32,
    pub workgroup_count_y: u32,
    pub workgroup_count_z: u32,
}

/// The layout that the kernel expects: the source cells, read only; the
/// destination cells, read and written; the grid's size; the rule's masks.
pub open spec fn kernel_layout() -> Seq<BindGroupLayoutEntry> {
    seq![
        BindGroupLayoutEntry { binding: SOURCE_BINDING, ty: BufferBindingType::ReadOnlyStorage },
        BindGroupLayoutEntry { binding: DESTINATION_BINDING, ty: BufferBindingType::Storage },
        BindGroupLayoutEntry { binding: SIZE_BINDING, ty: BufferBindingType::Uniform },
        BindGroupLayoutEntry { binding: RULE_BINDING, ty: BufferBindingType::Uniform },
    ]
}

/// The bindings that read buffer 0 and write buffer 1.
pub open spec fn from_0_to_1() -> BindGroup {
    BindGroup { from_buffer: CellBuffer::Zero, to_buffer: CellBuffer::One }
}

/// The bindings that read buffer 1 and write buffer 0.
pub open spec fn from_1_to_0() -> BindGroup {
    BindGroup { from_buffer: CellBuffer::One, to_buffer: CellBuffer::Zero }
}

impl BindGroup {
    /// The buffer at each slot, in the order of the slots.
    pub open spec fn spec_entries(self) -> Seq<BindGroupEntry> {
        seq![
            BindGroupEntry { binding: SOURCE_BINDING, buffer: BufferSlot::Cells(self.from_buffer) },
            BindGroupEntry {
                binding: DESTINATION_BINDING,
                buffer: BufferSlot::Cells(self.to_buffer),
            },
            BindGroupEntry { binding: SIZE_BINDING, buffer: BufferSlot::Size },
            BindGroupEntry { binding: RULE_BINDING, buffer: BufferSlot::Rule },
        ]
    }

    /// The buffer at each slot, in the order of the slots.
    pub fn entries(&self) -> (entries: Vec<BindGroupEntry>)
        ensures
            entries@ == self.spec_entries(),
    {
        let mut entries: Vec<BindGroupEntry> = Vec::with_capacity(4);
        entries.push(
            BindGroupEntry { binding: SOURCE_BINDING, buffer: BufferSlot::Cells(self.from_buffer) },
        );
        entries.push(
            BindGroupEntry {
                binding: DESTINATION_BINDING,
                buffer: BufferSlot::Cells(self.to_buffer),
            },
        );
        entries.push(BindGroupEntry { binding: SIZE_BINDING, buffer: BufferSlot::Size });
        entries.push(BindGroupEntry { binding: RULE_BINDING, buffer: BufferSlot::Rule });
        assert(entries@ =~= self.spec_entries());
        entries
    }
}

/// What a factory is, to its callers: the words that its two parameter
/// buffers hold. The buffers belong to the factory, not to a simulation:
/// every simulation made by the factory reads them, and they hold what the
/// simulation made last was made with.
pub struct FactoryView {
    pub size_buffer: Seq<u32>,
    pub rule_buffer: Seq<u32>,
}

/// The producer of simulations. It holds what all of them share: the
/// kernel's binding layout and the two parameter buffers.
pub struct ComputerFactory {
    bind_group_layout: Vec<BindGroupLayoutEntry>,
    size_buffer: [u32; 2],
    rule_buffer: [u32; 2],
}

impl View for ComputerFactory {
    type V = FactoryView;

    closed spec fn view(&self) -> FactoryView {
        FactoryView { size_buffer: self.size_buffer@, rule_buffer: self.rule_buffer@ }
    }
}

impl ComputerFactory {
    #[verifier::type_invariant]
    closed spec fn has_kernel_layout(self) -> bool {
        self.bind_group_layout@ == kernel_layout()
    }

    /// A factory for the kernel's layout, with both parameter buffers still
    /// zero.
    pub fn new() -> (factory: ComputerFactory)
        ensures
            factory@.size_buffer == seq![0u32, 0u32],
            factory@.rule_buffer == seq![0u32, 0u32],
    {
        let mut bind_group_layout: Vec<BindGroupLayoutEntry> = Vec::with_capacity(4);
        bind_group_layout.push(
            BindGroupLayoutEntry {
                binding: SOURCE_BINDING,
                ty: BufferBindingType::ReadOnlyStorage,
            },
        );
        bind_group_layout.push(
            BindGroupLayoutEntry { binding: DESTINATION_BINDING, ty: BufferBindingType::Storage },
        );
        bind_group_layout.push(
            BindGroupLayoutEntry { binding: SIZE_BINDING, ty: BufferBindingType::Uniform },
        );
        bind_group_layout.push(
            BindGroupLayoutEntry { binding: RULE_BINDING, ty: BufferBindingType::Uniform },
        );
        assert(bind_group_layout@ =~= kernel_layout());
        let size_buffer: [u32; 2] = [0, 0];
        let rule_buffer: [u32; 2] = [0, 0];
        assert(size_buffer@ =~= seq![0u32, 0u32]);
        assert(rule_buffer@ =~= seq![0u32, 0u32]);
        ComputerFactory { bind_group_layout, size_buffer, rule_buffer }
    }

    /// The kernel's binding layout, slot by slot.
    pub fn bind_group_layout(&self) -> (layout: &Vec<BindGroupLayoutEntry>)
        ensures
            layout@ == kernel_layout(),
    {
        proof {
            use_type_invariant(self);
        }
        &self.bind_group_layout
    }

    /// The contents of the size buffer, as the bytes to write to the device.
    pub fn size_buffer(&self) -> (bytes: &[u8])
        ensures
            is_memory_image(bytes@, self@.size_buffer),
    {
        words_as_bytes(self.size_buffer.as_slice())
    }

    /// The contents of the rule buffer, as the bytes to write to the device.
    pub fn rule_buffer(&self) -> (bytes: &[u8])
        ensures
            is_memory_image(bytes@, self@.rule_buffer),
    {
        words_as_bytes(self.rule_buffer.as_slice())
    }

    /// Makes a simulation of `dimensions` under `rule`, with a first
    /// generation drawn from the stream of `seed` at `initial_density`
    /// percent.
    ///
    /// The parameter buffers are overwritten with the new simulation's size
    /// and rule. The simulation starts with buffer 0 as the current
    /// generation.
    pub fn create(
        &mut self,
        dimensions: GridDimensions,
        rule: &Rule,
        seed: u64,
        initial_density: u8,
    ) -> (computer: Computer)
        requires
            dimensions.spec_cell_count() <= usize::MAX,
        ensures
            final(self)@.size_buffer == seq![dimensions.spec_width(), dimensions.spec_height()],
            final(self)@.rule_buffer == seq![rule.born as u32, rule.survives as u32],
            computer@ == (ComputerView {
                dimensions,
                currently_computed_is_0: true,
                cells_buffer_0: seeded_cells(seed, dimensions.spec_cell_count(), initial_density),
            }),
    {
        proof {
            use_type_invariant(&*self);
        }
        let size_array: [u32; 2] = [dimensions.width(), dimensions.height()];
        assert(size_array@ =~= seq![dimensions.spec_width(), dimensions.spec_height()]);
        self.size_buffer = size_array;
        self.rule_buffer = rule.rule_array();

        let count = dimensions.cell_count() as usize;
        let cells_vec = initial_cells(seed, count, initial_density);

        Computer {
            dimensions,
            compute_bind_group_from_0_to_1: BindGroup {
                from_buffer: CellBuffer::Zero,
                to_buffer: CellBuffer::One,
            },
            compute_bind_group_from_1_to_0: BindGroup {
                from_buffer: CellBuffer::One,
                to_buffer: CellBuffer::Zero,
            },
            currently_computed_is_0: true,
            cells_buffer_0: cells_vec,
        }
    }
}

/// What a simulation is, to its callers.
pub struct ComputerView {
    pub dimensions: GridDimensions,
    /// Whether buffer 0 holds the generation computed last. A dispatch reads
    /// the buffer that holds it and writes the other.
    pub currently_computed_is_0: bool,
    /// The first generation, which buffer 0 starts with. Buffer 1 starts
    /// with nothing in particular: it is written before it is read.
    pub cells_buffer_0: Seq<u32>,
}

impl ComputerView {
    /// The bindings of the next dispatch: it reads the buffer that holds the
    /// current generation.
    pub open spec fn bind_group(self) -> BindGroup {
        if self.currently_computed_is_0 {
            from_0_to_1()
        } else {
            from_1_to_0()
        }
    }

    /// The next dispatch.
    pub open spec fn dispatch(self) -> Dispatch {
        Dispatch {
            bind_group: self.bind_group(),
            workgroup_count_x: self.dimensions.spec_workgroup_counts().0,
            workgroup_count_y: self.dimensions.spec_workgroup_counts().1,
            workgroup_count_z: self.dimensions.spec_workgroup_counts().2,
        }
    }

    /// The simulation one generation on: the two buffers have changed roles.
    pub open spec fn advanced(self) -> ComputerView {
        ComputerView { currently_computed_is_0: !self.currently_computed_is_0, ..self }
    }

    /// The simulation `generations` generations on.
    pub open spec fn advanced_by(self, generations: nat) -> ComputerView
        decreases generations,
    {
        if generations == 0 {
            self
        } else {
            self.advanced_by((generations - 1) as nat).advanced()
        }
    }

    /// The buffer that holds the generation computed last.
    pub open spec fn current_buffer(self) -> CellBuffer {
        if self.currently_computed_is_0 {
            CellBuffer::Zero
        } else {
            CellBuffer::One
        }
    }
}

/// A simulation: a grid, its first generation and the direction of the next
/// dispatch.
pub struct Computer {
    dimensions: GridDimensions,
    compute_bind_group_from_0_to_1: BindGroup,
    compute_bind_group_from_1_to_0: BindGroup,
    currently_computed_is_0: bool,
    cells_buffer_0: Vec<u32>,
}

impl View for Computer {
    type V = ComputerView;

    closed spec fn view(&self) -> ComputerView {
        ComputerView {
            dimensions: self.dimensions,
            currently_computed_is_0: self.currently_computed_is_0,
            cells_buffer_0: self.cells_buffer_0@,
        }
    }
}

impl Computer {
    #[verifier::type_invariant]
    closed spec fn is_consistent(self) -> bool {
        &&& self.dimensions.is_valid()
        &&& self.cells_buffer_0@.len() == self.dimensions.spec_cell_count()
        &&& self.compute_bind_group_from_0_to_1 == from_0_to_1()
        &&& self.compute_bind_group_from_1_to_0 == from_1_to_0()
    }

    /// The size of the grid.
    pub fn dimensions(&self) -> (dimensions: GridDimensions)
        ensures
            dimensions == self@.dimensions,
            dimensions.is_valid(),
    {
        proof {
            use_type_invariant(self);
        }
        self.dimensions
    }

    /// Whether buffer 0 holds the generation computed last; if not, buffer 1
    /// does.
    pub fn currently_computed_is_0(&self) -> (is_0: bool)
        ensures
            is_0 == self@.currently_computed_is_0,
    {
        self.currently_computed_is_0
    }

    /// The first generation, one word per cell in row-major order, as the
    /// bytes that buffer 0 is created with.
    pub fn cells_buffer_0(&self) -> (bytes: &[u8])
        ensures
            is_memory_image(bytes@, self@.cells_buffer_0),
            bytes@.len() == 4 * self@.dimensions.spec_cell_count(),
    {
        proof {
            use_type_invariant(self);
        }
        words_as_bytes(self.cells_buffer_0.as_slice())
    }

    /// The size in bytes of each of the two cell buffers: one 32-bit word
    /// per cell.
    pub fn cells_buffer_size(&self) -> (size: u64)
        ensures
            size == 4 * self@.dimensions.spec_cell_count(),
    {
        self.cells_buffer_0().len() as u64
    }

    /// The bindings of the dispatches that read buffer 0 and write buffer 1.
    pub fn compute_bind_group_from_0_to_1(&self) -> (bind_group: BindGroup)
        ensures
            bind_group == from_0_to_1(),
    {
        proof {
            use_type_invariant(self);
        }
        self.compute_bind_group_from_0_to_1
    }

    /// The bindings of the dispatches that read buffer 1 and write buffer 0.
    pub fn compute_bind_group_from_1_to_0(&self) -> (bind_group: BindGroup)
        ensures
            bind_group == from_1_to_0(),
    {
        proof {
            use_type_invariant(self);
        }
        self.compute_bind_group_from_1_to_0
    }

    /// Advances the simulation by one generation: decides the one dispatch
    /// that computes it and lets the two buffers change roles.
    ///
    /// The dispatch reads the buffer that held the current generation and
    /// writes the other, which holds the current generation from now on.
    pub fn enqueue(&mut self) -> (dispatch: Dispatch)
        ensures
            dispatch == old(self)@.dispatch(),
            final(self)@ == old(self)@.advanced(),
            dispatch.bind_group.to_buffer == final(self)@.current_buffer(),
            dispatch.workgroup_count_x * 8 == old(self)@.dimensions.spec_width(),
            dispatch.workgroup_count_y * 8 == old(self)@.dimensions.spec_height(),
            dispatch.workgroup_count_z == 1,
    {
        proof {
            use_type_invariant(&*self);
        }
        let bind_group = if self.currently_computed_is_0 {
            self.compute_bind_group_from_0_to_1
        } else {
            self.compute_bind_group_from_1_to_0
        };

        self.currently_computed_is_0 = !self.currently_computed_is_0;

        let (workgroup_count_x, workgroup_count_y, workgroup_count_z) =
            self.dimensions.workgroup_counts();
        Dispatch { bind_group, workgroup_count_x, workgroup_count_y, workgroup_count_z }
    }
}

/// The phase has period two: after an even number of generations the
/// current generation lies in the buffer where it lay at the start, after
/// an odd number in the other. Nothing else changes.
pub proof fn lemma_phase_alternates(start: ComputerView, generations: nat)
    ensures
        start.advanced_by(generations).currently_computed_is_0 == (if generations % 2 == 0 {
            start.currently_computed_is_0
        } else {
            !start.currently_computed_is_0
        }),
        start.advanced_by(generations).dimensions == start.dimensions,
        start.advanced_by(generations).cells_buffer_0 == start.cells_buffer_0,
    decreases generations,
{
    if generations > 0 {
        lemma_phase_alternates(start, (generations - 1) as nat);
    }
}

/// Two generations on, a simulation is in the state it is in now, and one
/// generation on it is not.
pub proof fn lemma_phase_has_period_two(start: ComputerView, generations: nat)
    ensures
        start.advanced_by(generations + 2) == start.advanced_by(generations),
        start.advanced_by(generations + 1) != start.advanced_by(generations),
{
    lemma_phase_alternates(start, generations);
    lemma_phase_alternates(start, generations + 1);
    lemma_phase_alternates(start, generations + 2);
    assert(start.advanced_by(generations + 2) == start.advanced_by(generations + 1).advanced());
    assert(start.advanced_by(generations + 1) == start.advanced_by(generations).advanced());
}

/// Each dispatch reads what the one before it wrote: the buffer that one
/// dispatch writes is the buffer that the next one reads, and no dispatch
/// reads the buffer that it writes.
pub proof fn lemma_destination_becomes_source(state: ComputerView)
    ensures
        state.advanced().dispatch().bind_group.from_buffer
            == state.dispatch().bind_group.to_buffer,
        state.dispatch().bind_group.from_buffer != state.dispatch().bind_group.to_buffer,
        state.dispatch().bind_group.from_buffer == state.current_buffer(),
        state.advanced().current_buffer() == state.dispatch().bind_group.to_buffer,
{
}

/// From a new simulation, the dispatch number `generations`, counted from
/// zero, reads buffer 0 if the number is even and buffer 1 if it is odd, and
/// always covers the whole grid.
pub proof fn lemma_dispatch_of_generation(start: ComputerView, generations: nat)
    requires
        start.currently_computed_is_0,
    ensures
        start.advanced_by(generations).dispatch().bind_group == (if generations % 2 == 0 {
            from_0_to_1()
        } else {
            from_1_to_0()
        }),
        start.advanced_by(generations).dispatch().workgroup_count_x
            == start.dispatch().workgroup_count_x,
        start.advanced_by(generations).dispatch().workgroup_count_y
            == start.dispatch().workgroup_count_y,
        start.advanced_by(generations).dispatch().workgroup_count_z == 1,
{
    lemma_phase_alternates(start, generations);
}

/// The bindings of a dispatch fit the kernel's layout: slot for slot the
/// numbers agree, the buffer that is read stands at the read-only slot, the
/// buffer that is written at the slot that allows writing, and the two
/// parameter buffers at the uniform slots.
pub proof fn lemma_bindings_fit_layout(bind_group: BindGroup)
    ensures
        bind_group.spec_entries().len() == kernel_layout().len(),
        forall|slot: int|
            0 <= slot < 4 ==> (#[trigger] bind_group.spec_entries()[slot]).binding
                == kernel_layout()[slot].binding && kernel_layout()[slot].binding == slot,
        bind_group.spec_entries()[0].buffer == BufferSlot::Cells(bind_group.from_buffer)
            && kernel_layout()[0].ty == BufferBindingType::ReadOnlyStorage,
        bind_group.spec_entries()[1].buffer == BufferSlot::Cells(bind_group.to_buffer)
            && kernel_layout()[1].ty == BufferBindingType::Storage,
        bind_group.spec_entries()[2].buffer == BufferSlot::Size && kernel_layout()[2].ty
            == BufferBindingType::Uniform,
        bind_group.spec_entries()[3].buffer == BufferSlot::Rule && kernel_layout()[3].ty
            == BufferBindingType::Uniform,
{
}

} // verus!
