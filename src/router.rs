//! The entry point of the host: a message envelope is routed to its
//! handler, and packet handlers call the application module bound to the
//! channel's port.
use vstd::prelude::*;

use crate::chan_close_confirm::{
    chan_close_confirm_execute, chan_close_confirm_ok, chan_close_confirm_post,
    chan_close_confirm_validate, MsgChannelCloseConfirm,
};
use crate::chan_close_init::{
    chan_close_init, chan_close_init_ok, chan_close_init_post, chan_close_init_validate,
};
use crate::chan_handshake::{
    chan_init_end, chan_init_ok, chan_open_ack, chan_open_confirm, chan_open_init_validate,
    chan_open_init_with_version, chan_open_try_validate, chan_open_try_with_version, chan_step_ok,
    chan_step_validate, chan_try_end, chan_try_ok, new_channel_post, open_post,
    MsgChannelOpenConfirm, MsgChannelOpenInit, MsgChannelOpenTry,
};
use crate::channel::ChannelState;
use crate::context::IbcEvent;
use crate::create_client::{create_client, create_ok, create_post, mock_client_id, MsgCreateClient};
use crate::identifiers::{ChannelId, ClientId};
use crate::channel::Packet;
use crate::conn_handshake::{
    conn_ack_post, conn_open_ack, conn_open_init, conn_open_try, init_end, init_ok, new_connection_post, try_end,
    try_ok, MsgConnectionOpenInit, MsgConnectionOpenTry,
};
use crate::conn_open_confirm::{
    conn_confirm_post, conn_open_confirm, conn_open_confirm_ok, MsgConnectionOpenConfirm,
};
use crate::context::MockContext;
use crate::error::ContextError;
use crate::msgs::{MsgChannelCloseInit, MsgChannelOpenAck, MsgConnectionOpenAck};
use crate::packet::{
    ack_ok, ack_post, acknowledge_packet, recv_ok, recv_packet, recv_packet_validate, recv_post,
    timeout_ok, timeout_on_close, timeout_packet, timeout_post, MsgAcknowledgement, MsgRecvPacket,
    MsgTimeout,
};
use crate::update_client::{update_client, update_ok, update_post, MsgUpdateClient};

verus! {

/// The callbacks of an application module bound to a port. The handshake
/// callbacks run after the message has been validated and before the
/// context changes; an error from one of them refuses the step.
pub trait Module {
    /// Approves a new channel end on chain A; returns the version to store:
    /// the proposal, or one the module chooses instead.
    fn on_chan_open_init(&mut self, msg: &MsgChannelOpenInit) -> Result<String, ContextError>;

    /// Approves a new channel end on chain B; returns the version to store:
    /// the one chain A supports, or one the module chooses instead.
    fn on_chan_open_try(&mut self, msg: &MsgChannelOpenTry) -> Result<String, ContextError>;

    /// Approves opening the end on chain A.
    fn on_chan_open_ack(&mut self, msg: &MsgChannelOpenAck) -> Result<(), ContextError>;

    /// Approves opening the end on chain B.
    fn on_chan_open_confirm(&mut self, msg: &MsgChannelOpenConfirm) -> Result<(), ContextError>;

    /// Approves closing the end on chain A.
    fn on_chan_close_init(&mut self, msg: &MsgChannelCloseInit) -> Result<(), ContextError>;

    /// Approves closing the end on chain B.
    fn on_chan_close_confirm(&mut self, msg: &MsgChannelCloseConfirm) -> Result<(), ContextError>;

    /// Handles a received packet; returns the acknowledgement to write now,
    /// or an empty one when the module acknowledges later.
    fn on_recv_packet(&mut self, packet: &Packet) -> Vec<u8>;

    /// Learns that a packet it sent was acknowledged with `ack`.
    fn on_acknowledgement_packet(&mut self, packet: &Packet, ack: &Vec<u8>);

    /// Learns that a packet it sent timed out.
    fn on_timeout_packet(&mut self, packet: &Packet);
}

/// Any message the host handles.
#[derive(Clone, Debug, PartialEq, Eq)]
pub enum MsgEnvelope {
    CreateClient(MsgCreateClient),
    UpdateClient(MsgUpdateClient),
    ConnectionOpenInit(MsgConnectionOpenInit),
    ConnectionOpenTry(MsgConnectionOpenTry),
    ConnectionOpenAck(MsgConnectionOpenAck),
    ConnectionOpenConfirm(MsgConnectionOpenConfirm),
    ChannelOpenInit(MsgChannelOpenInit),
    ChannelOpenTry(MsgChannelOpenTry),
    ChannelOpenAck(MsgChannelOpenAck),
    ChannelOpenConfirm(MsgChannelOpenConfirm),
    ChannelCloseInit(MsgChannelCloseInit),
    ChannelCloseConfirm(MsgChannelCloseConfirm),
    RecvPacket(MsgRecvPacket),
    Acknowledgement(MsgAcknowledgement),
    Timeout(MsgTimeout),
    TimeoutOnClose(MsgTimeout),
}

/// Routes `msg` to its handler. Channel handshake and packet messages also
/// reach `module`, after the message has been validated: a handshake
/// callback may refuse the step, and `OpenInit`/`OpenTry` store the version
/// it returns. On failure `ctx` is left exactly as it was; the module is
/// called only for a message that passed validation.
pub fn dispatch<M: Module>(ctx: &mut MockContext, module: &mut M, msg: &MsgEnvelope) -> (r: Result<
    (),
    ContextError,
>)
    requires
        old(ctx).wf(),
    ensures
        final(ctx).wf(),
        r is Err ==> final(ctx)@ == old(ctx)@,
        match *msg {
            MsgEnvelope::CreateClient(m) => (r is Ok <==> create_ok(old(ctx)@, m)) && (r is Ok
                ==> exists|id: ClientId|
                id@ == mock_client_id(old(ctx)@.client_counter) && create_post(
                    old(ctx)@,
                    m,
                    id,
                    final(ctx)@,
                )),
            MsgEnvelope::ChannelOpenInit(m) => (!chan_init_ok(old(ctx)@, m) ==> r is Err) && (r is Ok
                ==> chan_init_ok(old(ctx)@, m) && exists|id: ChannelId, version: String|
                id@ == ChannelId::spec_named(old(ctx)@.channel_counter) && new_channel_post(
                    old(ctx)@,
                    m.port_id_on_a,
                    chan_init_end(m, version),
                    IbcEvent::OpenInitChannel { port_id: m.port_id_on_a, channel_id: id },
                    final(ctx)@,
                )),
            MsgEnvelope::ChannelOpenTry(m) => (!chan_try_ok(old(ctx)@, m) ==> r is Err) && (r is Ok
                ==> chan_try_ok(old(ctx)@, m) && exists|id: ChannelId, version: String|
                id@ == ChannelId::spec_named(old(ctx)@.channel_counter) && new_channel_post(
                    old(ctx)@,
                    m.port_id_on_b,
                    chan_try_end(m, version),
                    IbcEvent::OpenTryChannel { port_id: m.port_id_on_b, channel_id: id },
                    final(ctx)@,
                )),
            MsgEnvelope::ChannelOpenAck(m) => (!chan_step_ok(
                old(ctx)@,
                m.port_id_on_a@,
                m.chan_id_on_a@,
                ChannelState::Init,
                m.proof_height_on_b@,
            ) ==> r is Err) && (r is Ok ==> chan_step_ok(
                old(ctx)@,
                m.port_id_on_a@,
                m.chan_id_on_a@,
                ChannelState::Init,
                m.proof_height_on_b@,
            ) && open_post(
                old(ctx)@,
                m.port_id_on_a,
                m.chan_id_on_a,
                Some(m.chan_id_on_b),
                Some(m.version_on_b),
                IbcEvent::OpenAckChannel { port_id: m.port_id_on_a, channel_id: m.chan_id_on_a },
                final(ctx)@,
            )),
            MsgEnvelope::ChannelOpenConfirm(m) => (!chan_step_ok(
                old(ctx)@,
                m.port_id_on_b@,
                m.chan_id_on_b@,
                ChannelState::TryOpen,
                m.proof_height_on_a@,
            ) ==> r is Err) && (r is Ok ==> chan_step_ok(
                old(ctx)@,
                m.port_id_on_b@,
                m.chan_id_on_b@,
                ChannelState::TryOpen,
                m.proof_height_on_a@,
            ) && open_post(
                old(ctx)@,
                m.port_id_on_b,
                m.chan_id_on_b,
                None,
                None,
                IbcEvent::OpenConfirmChannel { port_id: m.port_id_on_b, channel_id: m.chan_id_on_b },
                final(ctx)@,
            )),
            MsgEnvelope::UpdateClient(m) => (r is Ok <==> update_ok(old(ctx)@, m)) && (r is Ok
                ==> update_post(old(ctx)@, m, final(ctx)@)),
            MsgEnvelope::ConnectionOpenInit(m) => (r is Ok <==> init_ok(old(ctx)@, m)) && (r is Ok
                ==> new_connection_post(old(ctx)@, m.client_id_on_a@, init_end(m), final(ctx)@)),
            MsgEnvelope::ConnectionOpenTry(m) => (r is Ok <==> try_ok(old(ctx)@, m)) && (r is Ok
                ==> new_connection_post(old(ctx)@, m.client_id_on_b@, try_end(m), final(ctx)@)),
            MsgEnvelope::ConnectionOpenAck(m) => (r is Ok <==> crate::conn_handshake::ack_ok(
                old(ctx)@,
                m,
            )) && (r is Ok ==> conn_ack_post(old(ctx)@, m, final(ctx)@)),
            MsgEnvelope::ConnectionOpenConfirm(m) => (r is Ok <==> conn_open_confirm_ok(
                old(ctx)@,
                m.conn_id_on_b@,
                m.proof_height_on_a@,
            )) && (r is Ok ==> conn_confirm_post(old(ctx)@, m, final(ctx)@)),
            MsgEnvelope::ChannelCloseInit(m) => (!chan_close_init_ok(
                old(ctx)@,
                m.port_id_on_a@,
                m.chan_id_on_a@,
            ) ==> r is Err) && (r is Ok ==> chan_close_init_ok(
                old(ctx)@,
                m.port_id_on_a@,
                m.chan_id_on_a@,
            ) && chan_close_init_post(old(ctx)@, m, final(ctx)@)),
            MsgEnvelope::ChannelCloseConfirm(m) => (!chan_close_confirm_ok(old(ctx)@, m) ==> r is Err)
                && (r is Ok ==> chan_close_confirm_ok(old(ctx)@, m) && chan_close_confirm_post(
                old(ctx)@,
                m,
                final(ctx)@,
            )),
            MsgEnvelope::RecvPacket(m) => (r is Ok <==> recv_ok(old(ctx)@, m)) && (r is Ok ==> exists|
                ack: Seq<u8>,
            | recv_post(old(ctx)@, m, ack, final(ctx)@)),
            MsgEnvelope::Acknowledgement(m) => (r is Ok <==> ack_ok(old(ctx)@, m)) && (r is Ok
                ==> ack_post(old(ctx)@, m, final(ctx)@)),
            MsgEnvelope::Timeout(m) => (r is Ok <==> timeout_ok(old(ctx)@, m, false)) && (r is Ok
                ==> timeout_post(old(ctx)@, m, final(ctx)@)),
            MsgEnvelope::TimeoutOnClose(m) => (r is Ok <==> timeout_ok(old(ctx)@, m, true)) && (r is Ok
                ==> timeout_post(old(ctx)@, m, final(ctx)@)),
        },
{
    match msg {
        MsgEnvelope::CreateClient(m) => {
            let id = create_client(ctx, m)?;
            assert(create_post(old(ctx)@, *m, id, ctx@));
            Ok(())
        },
        MsgEnvelope::ChannelOpenInit(m) => {
            chan_open_init_validate(ctx, m)?;
            let version = module.on_chan_open_init(m)?;
            let ghost v = version;
            let id = chan_open_init_with_version(ctx, m, version)?;
            assert(new_channel_post(
                old(ctx)@,
                m.port_id_on_a,
                chan_init_end(*m, v),
                IbcEvent::OpenInitChannel { port_id: m.port_id_on_a, channel_id: id },
                ctx@,
            ));
            Ok(())
        },
        MsgEnvelope::ChannelOpenTry(m) => {
            chan_open_try_validate(ctx, m)?;
            let version = module.on_chan_open_try(m)?;
            let ghost v = version;
            let id = chan_open_try_with_version(ctx, m, version)?;
            assert(new_channel_post(
                old(ctx)@,
                m.port_id_on_b,
                chan_try_end(*m, v),
                IbcEvent::OpenTryChannel { port_id: m.port_id_on_b, channel_id: id },
                ctx@,
            ));
            Ok(())
        },
        MsgEnvelope::ChannelOpenAck(m) => {
            chan_step_validate(ctx, &m.port_id_on_a, &m.chan_id_on_a, ChannelState::Init, &m.proof_height_on_b)?;
            module.on_chan_open_ack(m)?;
            chan_open_ack(ctx, m)
        },
        MsgEnvelope::ChannelOpenConfirm(m) => {
            chan_step_validate(ctx, &m.port_id_on_b, &m.chan_id_on_b, ChannelState::TryOpen, &m.proof_height_on_a)?;
            module.on_chan_open_confirm(m)?;
            chan_open_confirm(ctx, m)
        },
        MsgEnvelope::ChannelCloseInit(m) => {
            chan_close_init_validate(ctx, m)?;
            module.on_chan_close_init(m)?;
            chan_close_init(ctx, m)
        },
        MsgEnvelope::ChannelCloseConfirm(m) => {
            chan_close_confirm_validate(ctx, m)?;
            module.on_chan_close_confirm(m)?;
            chan_close_confirm_execute(ctx, m)
        },
        MsgEnvelope::UpdateClient(m) => update_client(ctx, m),
        MsgEnvelope::ConnectionOpenInit(m) => {
            conn_open_init(ctx, m)?;
            Ok(())
        },
        MsgEnvelope::ConnectionOpenTry(m) => {
            conn_open_try(ctx, m)?;
            Ok(())
        },
        MsgEnvelope::ConnectionOpenAck(m) => conn_open_ack(ctx, m),
        MsgEnvelope::ConnectionOpenConfirm(m) => conn_open_confirm(ctx, m),
        MsgEnvelope::RecvPacket(m) => {
            recv_packet_validate(ctx, m)?;
            let ack = module.on_recv_packet(&m.packet);
            let r = recv_packet(ctx, m, &ack);
            assert(r is Ok ==> recv_post(old(ctx)@, *m, ack@, ctx@));
            r
        },
        MsgEnvelope::Acknowledgement(m) => {
            acknowledge_packet(ctx, m)?;
            module.on_acknowledgement_packet(&m.packet, &m.acknowledgement);
            Ok(())
        },
        MsgEnvelope::Timeout(m) => {
            timeout_packet(ctx, m)?;
            module.on_timeout_packet(&m.packet);
            Ok(())
        },
        MsgEnvelope::TimeoutOnClose(m) => {
            timeout_on_close(ctx, m)?;
            module.on_timeout_packet(&m.packet);
            Ok(())
        },
    }
}

} // verus!
