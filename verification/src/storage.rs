//! Keeping the configuration in flash.
use vstd::prelude::*;
use crate::config::{
    decode_config, encode_config, law_config_found, law_config_reads_back, reads_as, stored_config,
    ConfigModel, Configuration, ADDR_OFFSET, CONFIG_SIZE, SECTOR_SIZE,
};
use crate::device::{DemoDevice, DeviceModel};
use crate::effect::{Action, ActionModel, Effect, Modelled, Reply, Turn};

verus! {

/// Where the reading of the configuration stands.
#[derive(Debug, PartialEq, Eq, Structural, Clone, Copy)]
pub enum LoadStage {
    Start,
    Loading,
}

/// Where the writing of a configuration stands.
#[derive(Debug, PartialEq, Eq, Structural, Clone, Copy)]
pub enum StoreStage {
    Start,
    Erasing,
    Writing,
}

/// What a step in reading the configuration comes to, by its values.
pub type LoadTurn = Turn<ActionModel, LoadStage, Result<(), Seq<char>>>;

/// What a step in writing a configuration comes to, by its values.
pub type StoreTurn = Turn<ActionModel, StoreStage, Result<(), Seq<char>>>;

/// A step in reading the configuration, and what the device remembers after it: the bytes are
/// fetched, and the configuration that they begin with is taken over.
pub open spec fn load_turn(dev: DeviceModel, at: LoadStage, reply: Reply) -> (
    DeviceModel,
    LoadTurn,
) {
    match at {
        LoadStage::Start => (
            dev,
            Turn::Perform(
                Effect::ReadFlash { offset: ADDR_OFFSET, length: CONFIG_SIZE },
                LoadStage::Loading,
            ),
        ),
        LoadStage::Loading => match reply {
            Reply::Flash(bytes) => match stored_config(bytes@) {
                Some(c) => (DeviceModel { config: Some(c), ..dev }, Turn::Done(Ok(()))),
                None => (dev, Turn::Done(Err("Failed to deserialize config"@))),
            },
            _ => (dev, Turn::Done(Err("Failed to read config"@))),
        },
    }
}

/// A step in writing a configuration: if it fits, its sector is erased and its bytes are written.
pub open spec fn store_turn(c: ConfigModel, at: StoreStage, reply: Reply) -> StoreTurn {
    match at {
        StoreStage::Start => if c.storable() {
            Turn::Perform(
                Effect::EraseFlash {
                    from: ADDR_OFFSET,
                    to: (ADDR_OFFSET + SECTOR_SIZE) as u32,
                },
                StoreStage::Erasing,
            )
        } else {
            Turn::Done(Err("Failed to serialize config"@))
        },
        StoreStage::Erasing => if !reply.acknowledged() {
            Turn::Done(Err("Failed to erase flash"@))
        } else if c.storable() {
            Turn::Perform(
                Effect::WriteFlash { offset: ADDR_OFFSET, bytes: c.bytes() },
                StoreStage::Writing,
            )
        } else {
            Turn::Done(Err("Failed to serialize config"@))
        },
        StoreStage::Writing => if reply.acknowledged() {
            Turn::Done(Ok(()))
        } else {
            Turn::Done(Err("Failed to write config"@))
        },
    }
}

impl<P> DemoDevice<P> {
    /// A step in reading the configuration from flash.
    pub fn read_config(&mut self, at: LoadStage, reply: Reply) -> (r: Turn<
        Action,
        LoadStage,
        Result<(), &'static str>,
    >)
        ensures
            (final(self)@, r.model()) == load_turn(old(self)@, at, reply),
            final(self).peripherals == old(self).peripherals,
    {
        match at {
            LoadStage::Start => Turn::Perform(
                Effect::ReadFlash { offset: ADDR_OFFSET, length: CONFIG_SIZE },
                LoadStage::Loading,
            ),
            LoadStage::Loading => match reply {
                Reply::Flash(bytes) => match decode_config(bytes.as_slice()) {
                    Ok(config) => {
                        self.set_config(config);
                        Turn::Done(Ok(()))
                    },
                    Err(message) => Turn::Done(Err(message)),
                },
                _ => Turn::Done(Err("Failed to read config")),
            },
        }
    }

    /// A step in writing a configuration to flash.
    pub fn write_config(&self, config: &Configuration, at: StoreStage, reply: Reply) -> (r: Turn<
        Action,
        StoreStage,
        Result<(), &'static str>,
    >)
        ensures
            r.model() == store_turn(config@, at, reply),
    {
        match at {
            StoreStage::Start => match encode_config(config) {
                Ok(_) => Turn::Perform(
                    Effect::EraseFlash { from: ADDR_OFFSET, to: ADDR_OFFSET + SECTOR_SIZE },
                    StoreStage::Erasing,
                ),
                Err(message) => Turn::Done(Err(message)),
            },
            StoreStage::Erasing => {
                if !reply.is_acknowledged() {
                    return Turn::Done(Err("Failed to erase flash"));
                }
                match encode_config(config) {
                    Ok(bytes) => Turn::Perform(
                        Effect::WriteFlash { offset: ADDR_OFFSET, bytes },
                        StoreStage::Writing,
                    ),
                    Err(message) => Turn::Done(Err(message)),
                }
            },
            StoreStage::Writing => if reply.is_acknowledged() {
                Turn::Done(Ok(()))
            } else {
                Turn::Done(Err("Failed to write config"))
            },
        }
    }
}

/// What flash holds after an effect: erasing sets every bit of a range, and writing can only clear
/// bits.
pub open spec fn flash_after(flash: Seq<u8>, effect: ActionModel) -> Seq<u8> {
    match effect {
        Effect::EraseFlash { from, to } => Seq::new(
            flash.len(),
            |i: int|
                if from <= i < to {
                    0xffu8
                } else {
                    flash[i]
                },
        ),
        Effect::WriteFlash { offset, bytes } => Seq::new(
            flash.len(),
            |i: int|
                if offset <= i < offset + bytes.len() {
                    flash[i] & bytes[i - offset]
                } else {
                    flash[i]
                },
        ),
        _ => flash,
    }
}

/// A configuration that was written is read back, whatever flash held before: the steps of writing
/// perform an erasure and a write, after which the steps of reading ask for bytes that are taken
/// for that configuration.
pub proof fn law_config_survives_storage(
    c: ConfigModel,
    flash: Seq<u8>,
    dev: DeviceModel,
    read: Vec<u8>,
)
    requires
        c.valid(),
        c.storable(),
        flash.len() >= ADDR_OFFSET + SECTOR_SIZE,
        ({
            let erase = store_turn(c, StoreStage::Start, Reply::Ack(true))->Perform_0;
            let write = store_turn(c, StoreStage::Erasing, Reply::Ack(true))->Perform_0;
            let stored = flash_after(flash_after(flash, erase), write);
            let load = load_turn(dev, LoadStage::Start, Reply::Ack(true)).1->Perform_0;
            read@ == stored.subrange(
                load->ReadFlash_offset as int,
                load->ReadFlash_offset as int + load->ReadFlash_length as int,
            )
        }),
    ensures
        store_turn(c, StoreStage::Start, Reply::Ack(true)) matches StoreTurn::Perform(
            Effect::EraseFlash { .. },
            StoreStage::Erasing,
        ),
        store_turn(c, StoreStage::Erasing, Reply::Ack(true)) matches StoreTurn::Perform(
            Effect::WriteFlash { .. },
            StoreStage::Writing,
        ),
        store_turn(c, StoreStage::Writing, Reply::Ack(true)) == StoreTurn::Done(Ok(())),
        load_turn(dev, LoadStage::Start, Reply::Ack(true)).1 matches LoadTurn::Perform(
            Effect::ReadFlash { .. },
            LoadStage::Loading,
        ),
        load_turn(dev, LoadStage::Loading, Reply::Flash(read)) == (
            DeviceModel { config: Some(c), ..dev },
            LoadTurn::Done(Ok(())),
        ),
{
    let erase = store_turn(c, StoreStage::Start, Reply::Ack(true))->Perform_0;
    let erased = flash_after(flash, erase);
    let b = c.bytes();
    assert forall|i: int| 0 <= i < b.len() implies #[trigger] read@[i] == b[i] by {
        let x = b[i];
        assert(erased[ADDR_OFFSET as int + i] == 0xffu8);
        assert(0xffu8 & x == x) by (bit_vector);
    }
    assert(b =~= read@.subrange(0, b.len() as int));
    law_config_reads_back(read@, c);
}

/// Whatever bytes come back from flash, reading either takes over the one configuration that they
/// begin with, or keeps what the device has.
pub proof fn law_load_keeps_or_replaces(dev: DeviceModel, at: LoadStage, reply: Reply)
    ensures
        ({
            let (after, turn) = load_turn(dev, at, reply);
            if turn matches Turn::Done(Ok(())) {
                after == (DeviceModel { config: stored_config(reply->Flash_0@), ..dev })
                    && after.config is Some
            } else {
                after == dev
            }
        }),
{
}

/// Reading asks for 256 bytes at one megabyte into flash. If bytes come back that begin with a
/// configuration, the device has that configuration and is otherwise as it was; if they begin with
/// none, or none come back, the device is as it was and the message says which of the two it is.
pub proof fn law_load_steps(dev: DeviceModel, reply: Reply, bytes: Vec<u8>, c: ConfigModel)
    ensures
        load_turn(dev, LoadStage::Start, reply) == (
            dev,
            LoadTurn::Perform(
                Effect::ReadFlash { offset: 0x100000, length: 256 },
                LoadStage::Loading,
            ),
        ),
        reads_as(bytes@, c) ==> load_turn(dev, LoadStage::Loading, Reply::Flash(bytes)) == (
            DeviceModel { config: Some(c), ..dev },
            LoadTurn::Done(Ok(())),
        ),
        (forall|d: ConfigModel| !reads_as(bytes@, d)) ==> load_turn(
            dev,
            LoadStage::Loading,
            Reply::Flash(bytes),
        ) == (dev, LoadTurn::Done(Err("Failed to deserialize config"@))),
        !(reply is Flash) ==> load_turn(dev, LoadStage::Loading, reply) == (
            dev,
            LoadTurn::Done(Err("Failed to read config"@)),
        ),
{
    law_config_found(bytes@, c);
}

/// Writing a configuration that fits erases just the sector at one megabyte and then writes just
/// its bytes there; one that does not fit is refused before anything is erased. The message tells
/// erasing and writing apart where they fail.
pub proof fn law_store_steps(c: ConfigModel, reply: Reply)
    ensures
        store_turn(c, StoreStage::Start, reply) == if c.bytes().len() <= 256 {
            StoreTurn::Perform(
                Effect::EraseFlash { from: 0x100000, to: 0x101000 },
                StoreStage::Erasing,
            )
        } else {
            StoreTurn::Done(Err("Failed to serialize config"@))
        },
        c.bytes().len() <= 256 ==> store_turn(c, StoreStage::Erasing, Reply::Ack(true))
            == StoreTurn::Perform(
            Effect::WriteFlash { offset: 0x100000, bytes: c.bytes() },
            StoreStage::Writing,
        ),
        reply != Reply::Ack(true) ==> store_turn(c, StoreStage::Erasing, reply) == StoreTurn::Done(
            Err("Failed to erase flash"@),
        ),
        store_turn(c, StoreStage::Writing, reply) == if reply == Reply::Ack(true) {
            StoreTurn::Done(Ok(()))
        } else {
            StoreTurn::Done(Err("Failed to write config"@))
        },
{
}

} // verus!
