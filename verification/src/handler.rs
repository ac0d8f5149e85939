//! The handler contract and the builder of a handler's codec factories.
use vstd::prelude::*;
use std::marker::PhantomData;
use factory::{DefaultFactory, Factory};
use crate::factories::is_default;
use crate::slots::Slots;
use crate::{DecodingError, Req, Res};

verus! {

/// What one endpoint offers to the server that drives it.
///
/// A handler answers the requests of one method on one path. The server
/// decodes the body of a request with `Decoder`, hands the request to the
/// handler, and encodes the body of the response with `Encoder`. The hooks
/// beside `handle_request` let a handler step in before the body is decoded
/// and after decoding has failed, and let it choose, request by request,
/// whether a body is decoded or encoded off the dispatching thread.
///
/// Every hook has a default that leaves the decision to the server. The
/// clauses below state those defaults. An implementation that overrides a
/// hook is bound by none of them.
pub trait HandleRequest: Sized {
    /// The method of the requests that this handler answers, such as `"GET"`.
    const METHOD: &'static str;

    /// The path pattern of the requests that this handler answers.
    const PATH: &'static str;

    /// The decoded body of a request.
    type ReqBody;

    /// The body of a response, before it is encoded.
    type ResBody;

    /// The decoder of request bodies. The server uses it as an
    /// `httpcodec::BodyDecode` whose items are of type `ReqBody`.
    type Decoder;

    /// The encoder of response bodies. The server uses it as an
    /// `httpcodec::BodyEncode` whose items are of type `ResBody`.
    type Encoder;

    /// Looks at a request of which only the head has been read.
    ///
    /// A response returned here ends the exchange: the server sends it,
    /// decodes no body and does not call `handle_request`. `None` lets the
    /// server go on to the body. The default returns `None`.
    #[allow(unused_variables)]
    fn handle_request_head(&self, req: &Req<()>) -> (res: Option<Res<Self::ResBody>>)
        default_ensures
            res is None,
    {
        None
    }

    /// Answers a request whose body has been decoded.
    fn handle_request(&self, req: Req<Self::ReqBody>) -> Reply<Self>;

    /// Looks at the error with which the decoding of a body failed.
    ///
    /// A response returned here is sent in place of the server's own error
    /// response. `None` leaves the answer to the server. The default returns
    /// `None`.
    #[allow(unused_variables)]
    fn handle_decoding_error(&self, error: &DecodingError) -> (res: Option<
        Res<Self::ResBody>,
    >)
        default_ensures
            res is None,
    {
        None
    }

    /// Whether the body of this request is to be decoded without blocking the
    /// dispatching thread. The default is `false`.
    #[allow(unused_variables)]
    fn enable_async_decoding(&self, req: &Req<()>) -> (enabled: bool)
        default_ensures
            !enabled,
    {
        false
    }

    /// Whether the body of this response is to be encoded without blocking
    /// the dispatching thread. The default is `false`.
    #[allow(unused_variables)]
    fn enable_async_encoding(&self, res: &Res<Self::ResBody>) -> (enabled: bool)
        default_ensures
            !enabled,
    {
        false
    }
}

/// The method and the path under which a router files the handlers of type
/// `H`. Both are read from the type: no handler and no request is needed.
pub fn endpoint<H: HandleRequest>() -> (key: (&'static str, &'static str))
    ensures
        key.0@ == H::METHOD@,
        key.1@ == H::PATH@,
{
    (H::METHOD, H::PATH)
}

/// The builder of the codec factories of the handler type `H`.
///
/// `D` and `E` are the types of what stands in the decoder slot and in the
/// encoder slot. A new builder holds `()` in both. Setting a slot gives a
/// builder of another type, so that a builder with a slot left open cannot be
/// taken for a finished one: `()` is no factory.
#[derive(Debug)]
pub struct HandlerOptions<H, D, E> {
    _handler: PhantomData<H>,
    decoder_factory: D,
    encoder_factory: E,
}

impl<H, D, E> View for HandlerOptions<H, D, E> {
    type V = Slots<D, E>;

    closed spec fn view(&self) -> Slots<D, E> {
        Slots { decoder: self.decoder_factory, encoder: self.encoder_factory }
    }
}

impl<H> HandlerOptions<H, (), ()> {
    /// A builder with both slots open.
    pub fn new() -> (opts: Self)
        ensures
            opts@ == Slots::empty(),
    {
        HandlerOptions { _handler: PhantomData, decoder_factory: (), encoder_factory: () }
    }
}

impl<H, D, E> HandlerOptions<H, D, E> where H: HandleRequest {
    /// Puts `decoder_factory` in the decoder slot, in place of what stood
    /// there. The encoder slot is kept.
    ///
    /// The factory is stored as it is given, so what it creates from the slot
    /// is what it creates anywhere else. The server needs a factory whose
    /// items are of type `H::Decoder`; that is asked of it where the
    /// factories are put to use.
    pub fn decoder<F>(self, decoder_factory: F) -> (opts: HandlerOptions<H, F, E>) where
        F: Factory,

        ensures
            opts@ == self@.set_decoder(decoder_factory),
    {
        HandlerOptions {
            _handler: self._handler,
            decoder_factory,
            encoder_factory: self.encoder_factory,
        }
    }

    /// Puts the default factory of `H::Decoder` in the decoder slot, as
    /// `decoder` would: the slot then holds what `DefaultFactory::default()`
    /// returns, and the encoder slot is kept.
    pub fn default_decoder(self) -> (opts: HandlerOptions<H, DefaultFactory<H::Decoder>, E>) where
        H::Decoder: Default,

        ensures
            opts@ == self@.set_decoder(opts@.decoder),
            is_default(opts@.decoder),
    {
        let factory: DefaultFactory<H::Decoder> = Default::default();
        self.decoder(factory)
    }

    /// Puts `encoder_factory` in the encoder slot, in place of what stood
    /// there. The decoder slot is kept.
    ///
    /// The factory is stored as it is given, so what it creates from the slot
    /// is what it creates anywhere else. The server needs a factory whose
    /// items are of type `H::Encoder`; that is asked of it where the
    /// factories are put to use.
    pub fn encoder<F>(self, encoder_factory: F) -> (opts: HandlerOptions<H, D, F>) where
        F: Factory,

        ensures
            opts@ == self@.set_encoder(encoder_factory),
    {
        HandlerOptions {
            _handler: self._handler,
            decoder_factory: self.decoder_factory,
            encoder_factory,
        }
    }

    /// Puts the default factory of `H::Encoder` in the encoder slot, as
    /// `encoder` would: the slot then holds what `DefaultFactory::default()`
    /// returns, and the decoder slot is kept.
    pub fn default_encoder(self) -> (opts: HandlerOptions<H, D, DefaultFactory<H::Encoder>>) where
        H::Encoder: Default,

        ensures
            opts@ == self@.set_encoder(opts@.encoder),
            is_default(opts@.encoder),
    {
        let factory: DefaultFactory<H::Encoder> = Default::default();
        self.encoder(factory)
    }
}

impl<H, D, E> HandlerOptions<H, D, E> where D: Factory, E: Factory {
    /// Ends the building and hands out the two factories, as they were put
    /// in. It is there only for a builder whose slots both hold a factory: on
    /// a builder with a slot left open the call does not compile.
    pub fn into_factories(self) -> (slots: Slots<D, E>)
        ensures
            slots == self@,
    {
        Slots { decoder: self.decoder_factory, encoder: self.encoder_factory }
    }
}

impl<H, T: Default, E> HandlerOptions<H, DefaultFactory<T>, E> {
    /// Creates a decoder with the default factory in the decoder slot: a
    /// value that `T::default()` can return.
    pub fn create_default_decoder(&self) -> (decoder: T)
        ensures
            is_default(decoder),
    {
        self.decoder_factory.create()
    }
}

impl<H, D, T: Default> HandlerOptions<H, D, DefaultFactory<T>> {
    /// Creates an encoder with the default factory in the encoder slot: a
    /// value that `T::default()` can return.
    pub fn create_default_encoder(&self) -> (encoder: T)
        ensures
            is_default(encoder),
    {
        self.encoder_factory.create()
    }
}

impl<H> Default for HandlerOptions<
    H,
    DefaultFactory<H::Decoder>,
    DefaultFactory<H::Encoder>,
> where H: HandleRequest, H::Decoder: Default, H::Encoder: Default {
    /// A builder with the default factory in each slot.
    fn default() -> (opts: Self)
        ensures
            is_default(opts@.decoder),
            is_default(opts@.encoder),
    {
        HandlerOptions::new().default_decoder().default_encoder()
    }
}

/// The answer of a handler to a request, on its way to becoming a response.
///
/// How a reply is made and how it is turned into a response is for the server
/// to say. Here it is the result type of `HandleRequest::handle_request`, tied
/// to the handler type `T`, and no more.
#[derive(Debug)]
pub struct Reply<T>(T);

} // verus!
