//! The memory of the machine: a fixed data segment and the display region
//! with its two frame slots and the frame-select control word.

use vstd::prelude::*;
use crate::error::LoadError;
use crate::layout::{DATA_SIZE, FRAME_0, FRAME_1, FRAME_SELECT, FRAME_SIZE, MMIO_SIZE};

verus! {

/// The mathematical content of a memory.
pub struct MemoryModel {
    /// The bytes of the data segment.
    pub data: Seq<u8>,
    /// The bytes of the display region.
    pub mmio: Seq<u8>,
}

impl MemoryModel {
    /// Both regions have their fixed size and the control word is 0 or 1, so
    /// that its parity and its being non-zero select the same slot.
    pub open spec fn wf(self) -> bool {
        &&& self.data.len() == DATA_SIZE
        &&& self.mmio.len() == MMIO_SIZE
        &&& self.mmio[FRAME_SELECT as int] <= 1
    }

    /// The memory with every byte zero: slot 0 is the front slot.
    pub open spec fn zeroed() -> MemoryModel {
        MemoryModel {
            data: Seq::new(DATA_SIZE as nat, |i: int| 0u8),
            mmio: Seq::new(MMIO_SIZE as nat, |i: int| 0u8),
        }
    }

    /// The number, 0 or 1, of the slot that the host sees.
    pub open spec fn front_slot(self) -> int {
        if self.mmio[FRAME_SELECT as int] == 0 {
            0
        } else {
            1
        }
    }

    /// The number of the slot that the simulator draws into.
    pub open spec fn back_slot(self) -> int {
        1 - self.front_slot()
    }

    /// The offset of slot `k` within the display region.
    pub open spec fn slot_offset(k: int) -> int {
        if k == 0 {
            FRAME_0 as int
        } else {
            FRAME_1 as int
        }
    }

    /// The bytes of slot `k`.
    pub open spec fn slot(self, k: int) -> Seq<u8> {
        self.mmio.subrange(Self::slot_offset(k), Self::slot_offset(k) + FRAME_SIZE)
    }

    /// The frame that the host sees.
    pub open spec fn front_frame(self) -> Seq<u8> {
        self.slot(self.front_slot())
    }

    /// The frame that the simulator draws into.
    pub open spec fn back_frame(self) -> Seq<u8> {
        self.slot(self.back_slot())
    }

    /// The memory after the two slots have changed roles.
    pub open spec fn swap(self) -> MemoryModel {
        let toggled: u8 = if self.mmio[FRAME_SELECT as int] == 0 {
            1
        } else {
            0
        };
        MemoryModel { mmio: self.mmio.update(FRAME_SELECT as int, toggled), ..self }
    }

    /// The memory after `value` is drawn at `offset` of the back slot.
    pub open spec fn draw(self, offset: int, value: u8) -> MemoryModel {
        MemoryModel {
            mmio: self.mmio.update(Self::slot_offset(self.back_slot()) + offset, value),
            ..self
        }
    }

    /// The memory after `value` is stored at `address` of the data segment.
    pub open spec fn store(self, address: int, value: u8) -> MemoryModel {
        MemoryModel { data: self.data.update(address, value), ..self }
    }

    /// The memory after `image` is installed in the data segment: the image
    /// first, then zeros up to the segment's capacity.
    pub open spec fn with_image(self, image: Seq<u8>) -> MemoryModel {
        MemoryModel {
            data: Seq::new(
                DATA_SIZE as nat,
                |i: int|
                    if i < image.len() {
                        image[i]
                    } else {
                        0u8
                    },
            ),
            ..self
        }
    }
}

/// The data segment and the display region of one simulator.
pub struct Memory {
    mmio: Vec<u8>,
    data: Vec<u8>,
}

impl View for Memory {
    type V = MemoryModel;

    closed spec fn view(&self) -> MemoryModel {
        MemoryModel { data: self.data@, mmio: self.mmio@ }
    }
}

impl Memory {
    /// The invariant of the memory: see [`MemoryModel::wf`].
    pub open spec fn wf(&self) -> bool {
        self@.wf()
    }

    /// A memory with both regions allocated and zero-filled.
    pub fn new() -> (memory: Memory)
        ensures
            memory.wf(),
            memory@ == MemoryModel::zeroed(),
    {
        let memory = Memory { mmio: vec![0u8; MMIO_SIZE], data: vec![0u8; DATA_SIZE] };
        assert(memory@.data =~= MemoryModel::zeroed().data);
        assert(memory@.mmio =~= MemoryModel::zeroed().mmio);
        memory
    }

    /// Installs `image` as the initial content of the data segment. An image
    /// larger than the segment is refused and leaves the memory as it was;
    /// a smaller one is padded with zeros.
    pub fn load_data(&mut self, image: &[u8]) -> (result: Result<(), LoadError>)
        requires
            old(self).wf(),
        ensures
            final(self).wf(),
            image@.len() > DATA_SIZE ==> result == Err::<(), LoadError>(LoadError::CapacityExceeded),
            image@.len() > DATA_SIZE ==> final(self)@ == old(self)@,
            image@.len() <= DATA_SIZE ==> result == Ok::<(), LoadError>(()),
            image@.len() <= DATA_SIZE ==> final(self)@ == old(self)@.with_image(image@),
    {
        if image.len() > DATA_SIZE {
            return Err(LoadError::CapacityExceeded);
        }
        let mut i: usize = 0;
        while i < DATA_SIZE
            invariant
                i <= DATA_SIZE,
                image@.len() <= DATA_SIZE,
                self.mmio == old(self).mmio,
                self.data@.len() == DATA_SIZE,
                forall|k: int|
                    0 <= k < i ==> self.data@[k] == old(self)@.with_image(image@).data[k],
            decreases DATA_SIZE - i,
        {
            let byte: u8 = if i < image.len() {
                image[i]
            } else {
                0
            };
            self.data.set(i, byte);
            i += 1;
        }
        assert(self@.data =~= old(self)@.with_image(image@).data);
        Ok(())
    }

    /// The byte at `address` of the data segment.
    pub fn read_data(&self, address: usize) -> (value: u8)
        requires
            self.wf(),
            address < DATA_SIZE,
        ensures
            value == self@.data[address as int],
    {
        self.data[address]
    }

    /// Stores `value` at `address` of the data segment.
    pub fn write_data(&mut self, address: usize, value: u8)
        requires
            old(self).wf(),
            address < DATA_SIZE,
        ensures
            final(self).wf(),
            final(self)@ == old(self)@.store(address as int, value),
    {
        self.data.set(address, value);
    }

    /// The number, 0 or 1, of the slot that the host sees.
    pub fn front_slot(&self) -> (slot: usize)
        requires
            self.wf(),
        ensures
            slot == self@.front_slot(),
    {
        if self.mmio[FRAME_SELECT] == 0 {
            0
        } else {
            1
        }
    }

    /// A copy of the frame that the host sees: the bytes of the front slot,
    /// one per pixel, row by row.
    pub fn read_frame(&self) -> (frame: Vec<u8>)
        requires
            self.wf(),
        ensures
            frame@ == self@.front_frame(),
            frame@.len() == FRAME_SIZE,
    {
        let start: usize = if self.mmio[FRAME_SELECT] == 0 {
            FRAME_0
        } else {
            FRAME_1
        };
        let mut frame: Vec<u8> = Vec::with_capacity(FRAME_SIZE);
        let mut i: usize = 0;
        while i < FRAME_SIZE
            invariant
                i <= FRAME_SIZE,
                self.wf(),
                start == MemoryModel::slot_offset(self@.front_slot()),
                frame@.len() == i,
                forall|k: int| 0 <= k < i ==> frame@[k] == self.mmio@[start + k],
            decreases FRAME_SIZE - i,
        {
            frame.push(self.mmio[start + i]);
            i += 1;
        }
        assert(frame@ =~= self@.front_frame());
        frame
    }

    /// Exchanges the roles of the two slots by toggling the control word.
    /// What was the back frame becomes the frame that the host sees, and no
    /// pixel of either slot changes.
    pub fn swap_frame(&mut self)
        requires
            old(self).wf(),
        ensures
            final(self).wf(),
            final(self)@ == old(self)@.swap(),
            final(self)@.front_slot() == old(self)@.back_slot(),
            final(self)@.front_frame() == old(self)@.back_frame(),
            final(self)@.back_frame() == old(self)@.front_frame(),
    {
        let toggled: u8 = if self.mmio[FRAME_SELECT] == 0 {
            1
        } else {
            0
        };
        self.mmio.set(FRAME_SELECT, toggled);
        proof {
            lemma_swap_exchanges_frames(old(self)@);
        }
    }

    /// Draws `value` at `offset` of the back slot. The frame that the host
    /// sees is not touched.
    pub fn draw(&mut self, offset: usize, value: u8)
        requires
            old(self).wf(),
            offset < FRAME_SIZE,
        ensures
            final(self).wf(),
            final(self)@ == old(self)@.draw(offset as int, value),
            final(self)@.front_frame() == old(self)@.front_frame(),
            final(self)@.back_frame() == old(self)@.back_frame().update(offset as int, value),
    {
        let start: usize = if self.mmio[FRAME_SELECT] == 0 {
            FRAME_1
        } else {
            FRAME_0
        };
        self.mmio.set(start + offset, value);
        proof {
            lemma_draw_keeps_front(old(self)@, offset as int, value);
        }
    }
}

/// A swap exchanges the two frames: the host then sees the bytes of the slot
/// that it did not see before, and the former front frame is the new back
/// frame. Two swaps give the memory back.
pub proof fn lemma_swap_exchanges_frames(memory: MemoryModel)
    requires
        memory.wf(),
    ensures
        memory.swap().wf(),
        memory.swap().front_slot() == memory.back_slot(),
        memory.swap().front_slot() != memory.front_slot(),
        memory.swap().front_frame() == memory.slot(memory.back_slot()),
        memory.swap().back_frame() == memory.front_frame(),
        memory.swap().data == memory.data,
        memory.swap().swap() == memory,
{
    assert(memory.swap().slot(0) =~= memory.slot(0));
    assert(memory.swap().slot(1) =~= memory.slot(1));
    assert(memory.swap().swap().mmio =~= memory.mmio);
}

/// Drawing changes one byte of the back frame and nothing of the frame that
/// the host sees, nor which slot that is.
pub proof fn lemma_draw_keeps_front(memory: MemoryModel, offset: int, value: u8)
    requires
        memory.wf(),
        0 <= offset < FRAME_SIZE,
    ensures
        memory.draw(offset, value).wf(),
        memory.draw(offset, value).front_slot() == memory.front_slot(),
        memory.draw(offset, value).front_frame() == memory.front_frame(),
        memory.draw(offset, value).back_frame() == memory.back_frame().update(offset, value),
        memory.draw(offset, value).data == memory.data,
{
    assert(memory.draw(offset, value).front_frame() =~= memory.front_frame());
    assert(memory.draw(offset, value).back_frame() =~= memory.back_frame().update(offset, value));
}

/// Installing an image keeps its bytes and reads back zero behind them.
pub proof fn lemma_image_zero_padded(memory: MemoryModel, image: Seq<u8>, address: int)
    requires
        memory.wf(),
        image.len() <= DATA_SIZE,
        0 <= address < DATA_SIZE,
    ensures
        memory.with_image(image).wf(),
        address < image.len() ==> memory.with_image(image).data[address] == image[address],
        address >= image.len() ==> memory.with_image(image).data[address] == 0,
        memory.with_image(image).mmio == memory.mmio,
{
}

/// A zeroed memory is well formed and shows an all-zero frame from slot 0.
pub proof fn lemma_zeroed_shows_blank_frame()
    ensures
        MemoryModel::zeroed().wf(),
        MemoryModel::zeroed().front_slot() == 0,
        MemoryModel::zeroed().front_frame() == Seq::new(FRAME_SIZE as nat, |i: int| 0u8),
        MemoryModel::zeroed().with_image(Seq::empty()) == MemoryModel::zeroed(),
{
    assert(MemoryModel::zeroed().front_frame() =~= Seq::new(FRAME_SIZE as nat, |i: int| 0u8));
    assert(MemoryModel::zeroed().with_image(Seq::empty()).data =~= MemoryModel::zeroed().data);
}

} // verus!
