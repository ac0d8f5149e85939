//! The slots of a builder, as the contracts of the builder speak of them, and
//! what holds of setting them.
use vstd::prelude::*;

verus! {

/// What a builder holds: the content of its decoder slot and of its encoder
/// slot. A slot that has not been set holds `()`.
#[derive(Debug)]
pub struct Slots<D, E> {
    pub decoder: D,
    pub encoder: E,
}

impl Slots<(), ()> {
    /// The slots of a builder on which nothing has been set.
    pub open spec fn empty() -> Slots<(), ()> {
        Slots { decoder: (), encoder: () }
    }
}

impl<D, E> Slots<D, E> {
    /// These slots with `factory` in the decoder slot.
    pub open spec fn set_decoder<F>(self, factory: F) -> Slots<F, E> {
        Slots { decoder: factory, encoder: self.encoder }
    }

    /// These slots with `factory` in the encoder slot.
    pub open spec fn set_encoder<F>(self, factory: F) -> Slots<D, F> {
        Slots { decoder: self.decoder, encoder: factory }
    }
}

/// A builder that was given a decoder factory and then an encoder factory
/// holds exactly these two, whatever the order in which they were given.
pub proof fn builder_hands_factories_through<F1, F2>(decoder_factory: F1, encoder_factory: F2)
    ensures
        Slots::empty().set_decoder(decoder_factory).set_encoder(encoder_factory) == (Slots {
            decoder: decoder_factory,
            encoder: encoder_factory,
        }),
        Slots::empty().set_encoder(encoder_factory).set_decoder(decoder_factory) == (Slots {
            decoder: decoder_factory,
            encoder: encoder_factory,
        }),
{
}

/// Setting a slot twice leaves what the second setting would have left alone:
/// the first factory is gone.
pub proof fn last_factory_wins<D, E, F, G>(slots: Slots<D, E>, first: F, second: G)
    ensures
        slots.set_decoder(first).set_decoder(second) == slots.set_decoder(second),
        slots.set_encoder(first).set_encoder(second) == slots.set_encoder(second),
{
}

/// Setting one slot leaves the other as it was, so the two settings can be
/// made in either order.
pub proof fn slots_are_independent<D, E, F, G>(
    slots: Slots<D, E>,
    decoder_factory: F,
    encoder_factory: G,
)
    ensures
        slots.set_decoder(decoder_factory).encoder == slots.encoder,
        slots.set_encoder(encoder_factory).decoder == slots.decoder,
        slots.set_decoder(decoder_factory).set_encoder(encoder_factory) == slots.set_encoder(
            encoder_factory,
        ).set_decoder(decoder_factory),
{
}

} // verus!
