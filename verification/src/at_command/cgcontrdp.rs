//! The dynamic parameters of the packet data context: `+CGCONTRDP`.

use vstd::prelude::*;
use vstd::string::StringSliceAdditionalSpecFns;
use crate::at_command::{fails_with, handle_of, to_handle, AtRequest, AtResponse, BufferType};
use crate::bounded::{bound_optional, optional_admits, optional_view, BoundedText};
use crate::builder::{finished, set_text, SetCommand};
use crate::wire::Cursor;
use crate::AtError;

verus! {

/// The request for the dynamic parameters of the packet data context.
#[derive(Clone, Copy, Debug)]
pub struct PDPContextReadDynamicsParameters;

/// The largest number of bytes of an access point name.
pub const APN_MAX_SIZE: usize = 255;

/// The largest number of bytes of a local address with its subnet mask.
pub const LOCAL_ADDRESS_AND_SUBNET_MASK_MAX_SIZE: usize = 255;

/// The largest number of bytes of a gateway address.
pub const GATEWAY_ADDRESS_MAX_SIZE: usize = 255;

/// The largest number of bytes of the address of a name server.
pub const DNS_MAX_SIZE: usize = 128;

/// The response to [`PDPContextReadDynamicsParameters`].
#[derive(Debug)]
pub struct PDPContextReadDynamicsParametersResponse {
    pub cid: i32,
    pub bearer_id: i32,
    pub apn: BoundedText<APN_MAX_SIZE>,
    pub local_address_and_subnet_mask: Option<BoundedText<LOCAL_ADDRESS_AND_SUBNET_MASK_MAX_SIZE>>,
    pub gateway_address: Option<BoundedText<GATEWAY_ADDRESS_MAX_SIZE>>,
    pub primary_dns_address: Option<BoundedText<DNS_MAX_SIZE>>,
    pub secondary_dns_address: Option<BoundedText<DNS_MAX_SIZE>>,
    pub ipv4_mtu: Option<i32>,
    pub non_ip_mtu: Option<i32>,
    pub serving_plmn_rate_control_value: Option<i32>,
}

/// The fields of a `+CGCONTRDP` reply.
pub struct ContextFields {
    /// Whether the reply is well formed.
    pub valid: bool,
    pub cid: i32,
    pub bearer_id: i32,
    pub apn: Seq<u8>,
    pub local_address_and_subnet_mask: Option<Seq<u8>>,
    pub gateway_address: Option<Seq<u8>>,
    pub primary_dns_address: Option<Seq<u8>>,
    pub secondary_dns_address: Option<Seq<u8>>,
    pub ipv4_mtu: Option<i32>,
    pub non_ip_mtu: Option<i32>,
    pub serving_plmn_rate_control_value: Option<i32>,
}

impl PDPContextReadDynamicsParameters {
    /// Whether a reply is the bare acknowledgement that the module sends
    /// while it has no parameters yet.
    pub open spec fn is_plain_ok(data: Seq<u8>) -> bool {
        Cursor::start().after_identifier(data, "\r\nOK\r".spec_bytes()).valid
    }

    /// Reads a reply: `+CGCONTRDP: `, the context and bearer numbers, the
    /// quoted access point name, then four quoted addresses and three
    /// numbers, each of which may be missing.
    pub open spec fn fields_of(data: Seq<u8>) -> ContextFields {
        let cid = Cursor::start().after_identifier(
            data,
            "\r\n+CGCONTRDP: ".spec_bytes(),
        ).after_integer(data);
        let bearer_id = cid.0.after_integer(data);
        let apn = bearer_id.0.after_quoted(data);
        let local = apn.0.after_optional_quoted(data);
        let gateway = local.0.after_optional_quoted(data);
        let primary = gateway.0.after_optional_quoted(data);
        let secondary = primary.0.after_optional_quoted(data);
        let ipv4_mtu = secondary.0.after_optional_integer(data);
        let non_ip_mtu = ipv4_mtu.0.after_optional_integer(data);
        let rate = non_ip_mtu.0.after_optional_integer(data);
        ContextFields {
            valid: rate.0.valid,
            cid: cid.1,
            bearer_id: bearer_id.1,
            apn: apn.1,
            local_address_and_subnet_mask: local.1,
            gateway_address: gateway.1,
            primary_dns_address: primary.1,
            secondary_dns_address: secondary.1,
            ipv4_mtu: ipv4_mtu.1,
            non_ip_mtu: non_ip_mtu.1,
            serving_plmn_rate_control_value: rate.1,
        }
    }

    /// Whether each text of a reply fits the field that keeps it.
    pub open spec fn fields_fit(fields: ContextFields) -> bool {
        &&& BoundedText::<APN_MAX_SIZE>::admits(fields.apn.len())
        &&& optional_admits::<LOCAL_ADDRESS_AND_SUBNET_MASK_MAX_SIZE>(
            fields.local_address_and_subnet_mask,
        )
        &&& optional_admits::<GATEWAY_ADDRESS_MAX_SIZE>(fields.gateway_address)
        &&& optional_admits::<DNS_MAX_SIZE>(fields.primary_dns_address)
        &&& optional_admits::<DNS_MAX_SIZE>(fields.secondary_dns_address)
    }

    /// Whether a response holds the fields of a reply.
    pub open spec fn holds(
        response: PDPContextReadDynamicsParametersResponse,
        fields: ContextFields,
    ) -> bool {
        &&& response.cid == fields.cid
        &&& response.bearer_id == fields.bearer_id
        &&& response.apn@ == fields.apn
        &&& optional_view(response.local_address_and_subnet_mask)
            == fields.local_address_and_subnet_mask
        &&& optional_view(response.gateway_address) == fields.gateway_address
        &&& optional_view(response.primary_dns_address) == fields.primary_dns_address
        &&& optional_view(response.secondary_dns_address) == fields.secondary_dns_address
        &&& response.ipv4_mtu == fields.ipv4_mtu
        &&& response.non_ip_mtu == fields.non_ip_mtu
        &&& response.serving_plmn_rate_control_value == fields.serving_plmn_rate_control_value
    }

    /// The context and bearer numbers of a reply in the untyped interface:
    /// `+CGCONTRDP: `, two numbers, two quoted texts and the
    /// acknowledgement.
    pub open spec fn numbers_of(data: Seq<u8>) -> Result<(i32, i32), AtError> {
        let cid = Cursor::start().after_identifier(
            data,
            "\r\n+CGCONTRDP: ".spec_bytes(),
        ).after_integer(data);
        let bearer_id = cid.0.after_integer(data);
        if bearer_id.0.after_quoted(data).0.after_quoted(data).0.after_identifier(
            data,
            "\r\n\r\nOK\r".spec_bytes(),
        ).valid {
            Ok((cid.1, bearer_id.1))
        } else {
            Err(AtError::AtParseError)
        }
    }
}

impl AtRequest for PDPContextReadDynamicsParameters {
    type Response = Option<PDPContextReadDynamicsParametersResponse>;

    open spec fn encoded(&self, capacity: nat) -> Result<Seq<u8>, usize> {
        finished(set_text("+CGCONTRDP".spec_bytes()), capacity)
    }

    open spec fn decoded(&self, data: Seq<u8>, r: Result<Self::Response, AtError>) -> bool {
        {
            let fields = Self::fields_of(data);
            if Self::is_plain_ok(data) {
                r is Ok && r.unwrap() is None
            } else if !fields.valid {
                fails_with(r, AtError::AtParseError)
            } else if !Self::fields_fit(fields) {
                fails_with(r, AtError::CapacityError)
            } else {
                r is Ok && r.unwrap() is Some && Self::holds(r.unwrap().unwrap(), fields)
            }
        }
    }

    open spec fn decoded_untyped(&self, data: Seq<u8>, r: Result<AtResponse, AtError>) -> bool {
        r == if Self::is_plain_ok(data) {
            Ok::<AtResponse, AtError>(AtResponse::Okay)
        } else {
            match Self::numbers_of(data) {
                Ok((cid, bearer_id)) => Ok(
                    AtResponse::PDPContextDynamicParameters(handle_of(cid), handle_of(bearer_id)),
                ),
                Err(e) => Err(e),
            }
        }
    }

    fn get_command<'a>(&'a self, buffer: &'a mut BufferType) -> (r: Result<&'a [u8], usize>) {
        SetCommand::begin(buffer, "+CGCONTRDP").finish()
    }

    fn parse_response(&self, data: &[u8]) -> (r: Result<AtResponse, AtError>) {
        if Cursor::new().identifier(data, "\r\nOK\r".as_bytes()).valid {
            return Ok(AtResponse::Okay);
        }
        let (cursor, cid) = Cursor::new().identifier(data, "\r\n+CGCONTRDP: ".as_bytes()).integer(
            data,
        );
        let (cursor, bearer_id) = cursor.integer(data);
        let (cursor, _apn) = cursor.quoted(data);
        let (cursor, _local_address) = cursor.quoted(data);
        if cursor.identifier(data, "\r\n\r\nOK\r".as_bytes()).valid {
            Ok(AtResponse::PDPContextDynamicParameters(to_handle(cid), to_handle(bearer_id)))
        } else {
            Err(AtError::AtParseError)
        }
    }

    fn parse_response_struct(&self, data: &[u8]) -> (r: Result<Self::Response, AtError>) {
        if Cursor::new().identifier(data, "\r\nOK\r".as_bytes()).valid {
            return Ok(None);
        }
        let (cursor, cid) = Cursor::new().identifier(data, "\r\n+CGCONTRDP: ".as_bytes()).integer(
            data,
        );
        let (cursor, bearer_id) = cursor.integer(data);
        let (cursor, apn) = cursor.quoted(data);
        let (cursor, local_address_and_subnet_mask) = cursor.optional_quoted(data);
        let (cursor, gateway_address) = cursor.optional_quoted(data);
        let (cursor, primary_dns_address) = cursor.optional_quoted(data);
        let (cursor, secondary_dns_address) = cursor.optional_quoted(data);
        let (cursor, ipv4_mtu) = cursor.optional_integer(data);
        let (cursor, non_ip_mtu) = cursor.optional_integer(data);
        let (cursor, serving_plmn_rate_control_value) = cursor.optional_integer(data);
        if !cursor.valid {
            return Err(AtError::AtParseError);
        }
        let apn = BoundedText::new(apn)?;
        let local_address_and_subnet_mask = bound_optional(local_address_and_subnet_mask)?;
        let gateway_address = bound_optional(gateway_address)?;
        let primary_dns_address = bound_optional(primary_dns_address)?;
        let secondary_dns_address = bound_optional(secondary_dns_address)?;
        Ok(
            Some(
                PDPContextReadDynamicsParametersResponse {
                    cid,
                    bearer_id,
                    apn,
                    local_address_and_subnet_mask,
                    gateway_address,
                    primary_dns_address,
                    secondary_dns_address,
                    ipv4_mtu,
                    non_ip_mtu,
                    serving_plmn_rate_control_value,
                },
            ),
        )
    }
}

} // verus!
