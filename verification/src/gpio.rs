//! The pin table of the board: each pin's name, kind and settings, and the
//! table that updates them by name.
use vstd::prelude::*;

verus! {

/// Length of a pin's name.
pub const NAME_SIZE: usize = 16;

/// How a pin is used.
#[derive(Clone, Copy, Debug)]
pub enum Type {
    NotInitialized,
    Input,
    InputAnalog,
    Output,
    OutputPWM,
    /// Taken by the peripheral named.
    Pheriferal(&'static str),
}

/// The settings of a pin.
#[derive(Debug)]
pub struct GpioConfig {
    /// The name, `NAME_SIZE` bytes padded with spaces.
    pub name: Vec<u8>,
    pub io_type: Type,
    pub default_value: u8,
    pub pin: u32,
    pub adc_channel: Option<u32>,
    pub adc_rank: Option<u32>,
}

/// `name` as a pin name: its first `NAME_SIZE` bytes, padded with spaces.
pub open spec fn pin_name(name: Seq<u8>) -> Seq<u8> {
    Seq::new(NAME_SIZE as nat, |i: int| if i < name.len() { name[i] } else { 32u8 })
}

impl GpioConfig {
    /// An unused pin: a blank name, not initialised, everything zero.
    pub fn default() -> (r: GpioConfig)
        ensures
            r.name@ == pin_name(Seq::empty()),
            r.io_type == Type::NotInitialized,
            r.default_value == 0,
            r.pin == 0,
            r.adc_channel is None,
            r.adc_rank is None,
    {
        GpioConfig::new(&[], Type::NotInitialized, 0, 0, None, None)
    }

    /// The settings of pin `pin` named `name` (see `pin_name`).
    pub fn new(name: &[u8], io_type: Type, default_value: u8, pin: u32, adc_channel: Option<u32>, adc_rank: Option<u32>) -> (r: GpioConfig)
        ensures
            r.name@ == pin_name(name@),
            r.io_type == io_type,
            r.default_value == default_value,
            r.pin == pin,
            r.adc_channel == adc_channel,
            r.adc_rank == adc_rank,
    {
        let mut out: Vec<u8> = Vec::new();
        let mut i: usize = 0;
        while i < NAME_SIZE
            invariant
                0 <= i <= NAME_SIZE,
                out@ =~= pin_name(name@).take(i as int),
            decreases NAME_SIZE - i,
        {
            let b: u8 = if i < name.len() { name[i] } else { 32u8 };
            out.push(b);
            i = i + 1;
            assert(out@ =~= pin_name(name@).take(i as int));
        }
        assert(pin_name(name@).take(NAME_SIZE as int) =~= pin_name(name@));
        GpioConfig { name: out, io_type, default_value, pin, adc_channel, adc_rank }
    }

    /// A copy of the settings.
    pub fn duplicate(&self) -> (r: GpioConfig)
        ensures
            r.name@ == self.name@,
            r.io_type == self.io_type,
            r.default_value == self.default_value,
            r.pin == self.pin,
            r.adc_channel == self.adc_channel,
            r.adc_rank == self.adc_rank,
    {
        GpioConfig {
            name: crate::text_format::copy_bytes(&self.name),
            io_type: self.io_type,
            default_value: self.default_value,
            pin: self.pin,
            adc_channel: self.adc_channel,
            adc_rank: self.adc_rank,
        }
    }
}

/// The names of the pins in a table's slots (`None` for an empty slot).
pub open spec fn slot_names(slots: Seq<Option<GpioConfig>>) -> Seq<Option<Seq<u8>>> {
    Seq::new(slots.len(), |i: int| match slots[i] { Some(c) => Some(c.name@), None => None })
}

/// Position of the first slot holding a pin named `name`.
pub open spec fn find_slot(names: Seq<Option<Seq<u8>>>, name: Seq<u8>) -> Option<int> {
    if exists|i: int| 0 <= i < names.len() && names[i] == Some(name) {
        Some(choose|i: int| 0 <= i < names.len() && names[i] == Some(name)
            && forall|j: int| 0 <= j < i ==> #[trigger] names[j] != Some(name))
    } else {
        None
    }
}

/// A table of `SIZE` pin slots.
#[derive(Debug)]
pub struct GpioConfigs<const SIZE: usize> {
    pub array: Vec<Option<GpioConfig>>,
    pub index: usize,
}

impl<const SIZE: usize> GpioConfigs<SIZE> {
    /// The table has `SIZE` slots.
    pub open spec fn wf(&self) -> bool {
        self.array@.len() == SIZE
    }

    /// A table with every slot empty.
    pub fn new() -> (r: GpioConfigs<SIZE>)
        ensures
            r.wf(),
            forall|i: int| 0 <= i < SIZE ==> r.array@[i] is None,
            r.index == 0,
    {
        let mut array: Vec<Option<GpioConfig>> = Vec::new();
        let mut i: usize = 0;
        while i < SIZE
            invariant
                0 <= i <= SIZE,
                array@.len() == i,
                forall|k: int| 0 <= k < i ==> array@[k] is None,
            decreases SIZE - i,
        {
            array.push(None);
            i = i + 1;
        }
        GpioConfigs { array, index: 0 }
    }

    /// Puts `config` in the slot of the pin with the same name: the first such
    /// slot is replaced and the count of updates grows. Answers `false`, with
    /// the table unchanged, when the count has reached the number of slots or
    /// no slot holds a pin of that name.
    pub fn push(&mut self, config: GpioConfig) -> (r: bool)
        requires
            old(self).wf(),
        ensures
            final(self).wf(),
            ({
                let names = slot_names(old(self).array@);
                if old(self).index >= SIZE || find_slot(names, config.name@) is None {
                    !r && final(self).index == old(self).index
                        && final(self).array@ == old(self).array@
                } else {
                    let i = find_slot(names, config.name@).unwrap();
                    &&& r
                    &&& final(self).index == old(self).index + 1
                    &&& final(self).array@ == old(self).array@.update(i, Some(config))
                }
            }),
    {
        if self.index >= SIZE {
            return false;
        }
        let ghost names = slot_names(self.array@);
        let mut i: usize = 0;
        while i < self.array.len()
            invariant
                0 <= i <= self.array@.len(),
                self.array@.len() == SIZE,
                self.index < SIZE,
                names == slot_names(self.array@),
                self.array == old(self).array,
                self.index == old(self).index,
                forall|j: int| 0 <= j < i ==> #[trigger] names[j] != Some(config.name@),
            decreases self.array.len() - i,
        {
            let same = match &self.array[i] {
                Some(c) => crate::command_args::bytes_eq(&c.name, &config.name),
                None => false,
            };
            if same {
                assert(names[i as int] == Some(config.name@));
                proof {
                    let c = choose|k: int| 0 <= k < names.len() && names[k] == Some(config.name@)
                        && forall|j: int| 0 <= j < k ==> #[trigger] names[j] != Some(config.name@);
                    if c < i {
                        assert(names[c] != Some(config.name@));
                    }
                    if i < c {
                        assert(names[i as int] != Some(config.name@));
                    }
                }
                let ghost old_array = self.array@;
                self.array.set(i, Some(config));
                self.index = self.index + 1;
                assert(slot_names(self.array@) =~= names);
                return true;
            }
            i = i + 1;
        }
        assert(!exists|k: int| 0 <= k < names.len() && names[k] == Some(config.name@));
        false
    }

    /// The settings of the first pin named `name` (compared on all
    /// `NAME_SIZE` bytes), if any.
    pub fn index(&self, name: &Vec<u8>) -> (r: Option<usize>)
        requires
            self.wf(),
        ensures
            match r {
                Some(i) => find_slot(slot_names(self.array@), name@) == Some(i as int),
                None => find_slot(slot_names(self.array@), name@) is None,
            },
    {
        let ghost names = slot_names(self.array@);
        let mut i: usize = 0;
        while i < self.array.len()
            invariant
                0 <= i <= self.array@.len(),
                names == slot_names(self.array@),
                forall|j: int| 0 <= j < i ==> #[trigger] names[j] != Some(name@),
            decreases self.array.len() - i,
        {
            let same = match &self.array[i] {
                Some(c) => crate::command_args::bytes_eq(&c.name, name),
                None => false,
            };
            if same {
                assert(names[i as int] == Some(name@));
                proof {
                    let c = choose|k: int| 0 <= k < names.len() && names[k] == Some(name@)
                        && forall|j: int| 0 <= j < k ==> #[trigger] names[j] != Some(name@);
                    if c < i {
                        assert(names[c] != Some(name@));
                    }
                    if i < c {
                        assert(names[i as int] != Some(name@));
                    }
                }
                return Some(i);
            }
            i = i + 1;
        }
        assert(!exists|k: int| 0 <= k < names.len() && names[k] == Some(name@));
        None
    }
}

} // verus!
