//! `Registration` to [`CapabilityAdvertisement`].

use crate::attributes::{json_text, no_members, with_text, Attributes, JsonText};
use crate::proto::{NodeDefinition, NodeType, Registration};
use crate::schema::{
    AdvertisementModel, Capability, CapabilityAdvertisement, CapabilityModel, CapabilityType,
    OperationalStatus, WireEnum, SINGLE_ONE,
};
use crate::text::{copy_list, joined, texts};
use vstd::prelude::*;

verus! {

/// What kind of capability a type of node amounts to.
pub open spec fn capability_type_of(nt: NodeType) -> CapabilityType {
    match nt {
        NodeType::Radar
        | NodeType::Lidar
        | NodeType::Camera
        | NodeType::Seismic
        | NodeType::Acoustic
        | NodeType::ProximitySensor
        | NodeType::PassiveRf
        | NodeType::Chemical
        | NodeType::Biological
        | NodeType::Radiation => CapabilityType::Sensor,
        NodeType::MobileNode | NodeType::PointableNode => CapabilityType::Mobility,
        NodeType::Kinetic | NodeType::Ldew | NodeType::Rfdew | NodeType::Jammer => {
            CapabilityType::Payload
        },
        NodeType::Cyber => CapabilityType::Communication,
        NodeType::FusionNode => CapabilityType::Compute,
        NodeType::Human | NodeType::Other | NodeType::Unspecified => CapabilityType::Unspecified,
    }
}

/// The name of a type of node.
pub open spec fn node_type_name(nt: NodeType) -> Seq<char> {
    match nt {
        NodeType::Unspecified => "Unspecified"@,
        NodeType::Other => "Other"@,
        NodeType::Radar => "Radar"@,
        NodeType::Lidar => "Lidar"@,
        NodeType::Camera => "Camera"@,
        NodeType::Seismic => "Seismic"@,
        NodeType::Acoustic => "Acoustic"@,
        NodeType::ProximitySensor => "ProximitySensor"@,
        NodeType::PassiveRf => "PassiveRf"@,
        NodeType::Human => "Human"@,
        NodeType::Chemical => "Chemical"@,
        NodeType::Biological => "Biological"@,
        NodeType::Radiation => "Radiation"@,
        NodeType::Kinetic => "Kinetic"@,
        NodeType::Jammer => "Jammer"@,
        NodeType::Cyber => "Cyber"@,
        NodeType::Ldew => "Ldew"@,
        NodeType::Rfdew => "Rfdew"@,
        NodeType::MobileNode => "MobileNode"@,
        NodeType::PointableNode => "PointableNode"@,
        NodeType::FusionNode => "FusionNode"@,
    }
}

/// The members of the metadata of one capability.
pub open spec fn capability_metadata(msg: Registration, sub_types: Seq<String>) -> Map<
    Seq<char>,
    JsonText,
> {
    let named = with_text(
        with_text(no_members(), "sapient_icd_version"@, msg.icd_version),
        "sapient_name"@,
        msg.name,
    );
    let typed = if sub_types.len() > 0 {
        named.insert("sapient_node_sub_type"@, JsonText::List(texts(sub_types)))
    } else {
        named
    };
    if msg.config_data@.len() > 0 {
        typed.insert(
            "sapient_manufacturer"@,
            JsonText::Text(msg.config_data@[0].manufacturer@),
        ).insert("sapient_model"@, JsonText::Text(msg.config_data@[0].model@))
    } else {
        typed
    }
}

/// The capability that one node definition amounts to, if its type is known.
pub open spec fn capability_of(
    node_id: Seq<char>,
    msg: Registration,
    definition: NodeDefinition,
) -> Option<CapabilityModel> {
    match definition.node_type {
        Some(WireEnum::Known(nt)) => Some(
            CapabilityModel {
                id: node_id + "/"@ + node_type_name(nt),
                name: node_type_name(nt),
                capability_type: capability_type_of(nt),
                confidence: SINGLE_ONE,
                metadata_json: json_text(capability_metadata(msg, definition.node_sub_type@)),
                registered_at: None,
            },
        ),
        _ => None,
    }
}

/// The capabilities of the node definitions of known type, in their order.
pub open spec fn capabilities_of(
    node_id: Seq<char>,
    msg: Registration,
    definitions: Seq<NodeDefinition>,
) -> Seq<CapabilityModel>
    decreases definitions.len(),
{
    if definitions.len() == 0 {
        Seq::empty()
    } else {
        let rest = capabilities_of(node_id, msg, definitions.drop_last());
        match capability_of(node_id, msg, definitions.last()) {
            Some(capability) => rest.push(capability),
            None => rest,
        }
    }
}

/// The advertisement of a registered node.
pub open spec fn registered(node_id: Seq<char>, msg: Registration) -> AdvertisementModel {
    AdvertisementModel {
        node_id,
        advertised_at: None,
        capabilities: capabilities_of(node_id, msg, msg.node_definition@),
        resources: None,
        operational_status: WireEnum::Known(OperationalStatus::Ready),
    }
}

/// What kind of capability a type of node amounts to.
pub fn node_type_to_capability_type(nt: NodeType) -> (kind: CapabilityType)
    ensures
        kind == capability_type_of(nt),
{
    match nt {
        NodeType::Radar
        | NodeType::Lidar
        | NodeType::Camera
        | NodeType::Seismic
        | NodeType::Acoustic
        | NodeType::ProximitySensor
        | NodeType::PassiveRf
        | NodeType::Chemical
        | NodeType::Biological
        | NodeType::Radiation => CapabilityType::Sensor,
        NodeType::MobileNode | NodeType::PointableNode => CapabilityType::Mobility,
        NodeType::Kinetic | NodeType::Ldew | NodeType::Rfdew | NodeType::Jammer => {
            CapabilityType::Payload
        },
        NodeType::Cyber => CapabilityType::Communication,
        NodeType::FusionNode => CapabilityType::Compute,
        NodeType::Human | NodeType::Other | NodeType::Unspecified => CapabilityType::Unspecified,
    }
}

fn node_type_label(nt: NodeType) -> (label: &'static str)
    ensures
        label@ == node_type_name(nt),
{
    match nt {
        NodeType::Unspecified => "Unspecified",
        NodeType::Other => "Other",
        NodeType::Radar => "Radar",
        NodeType::Lidar => "Lidar",
        NodeType::Camera => "Camera",
        NodeType::Seismic => "Seismic",
        NodeType::Acoustic => "Acoustic",
        NodeType::ProximitySensor => "ProximitySensor",
        NodeType::PassiveRf => "PassiveRf",
        NodeType::Human => "Human",
        NodeType::Chemical => "Chemical",
        NodeType::Biological => "Biological",
        NodeType::Radiation => "Radiation",
        NodeType::Kinetic => "Kinetic",
        NodeType::Jammer => "Jammer",
        NodeType::Cyber => "Cyber",
        NodeType::Ldew => "Ldew",
        NodeType::Rfdew => "Rfdew",
        NodeType::MobileNode => "MobileNode",
        NodeType::PointableNode => "PointableNode",
        NodeType::FusionNode => "FusionNode",
    }
}

fn metadata(msg: &Registration, definition: &NodeDefinition) -> (text: String)
    ensures
        text@ == json_text(capability_metadata(*msg, definition.node_sub_type@)),
{
    let mut meta = Attributes::new();
    meta.text_option("sapient_icd_version", &msg.icd_version);
    meta.text_option("sapient_name", &msg.name);
    if !definition.node_sub_type.is_empty() {
        meta.list("sapient_node_sub_type", copy_list(&definition.node_sub_type));
    }
    if msg.config_data.len() > 0 {
        meta.text("sapient_manufacturer", msg.config_data[0].manufacturer.as_str());
        meta.text("sapient_model", msg.config_data[0].model.as_str());
    }
    meta.render()
}

fn capability(node_id: &str, msg: &Registration, definition: &NodeDefinition) -> (made: Option<
    Capability,
>)
    ensures
        match made {
            Some(c) => capability_of(node_id@, *msg, *definition) == Some(c@),
            None => capability_of(node_id@, *msg, *definition) is None,
        },
{
    match definition.node_type {
        Some(WireEnum::Known(nt)) => {
            let label = node_type_label(nt);
            let mut id = joined(node_id, "/");
            id.append(label);
            let made = Capability {
                id,
                name: label.to_owned(),
                capability_type: node_type_to_capability_type(nt),
                confidence: SINGLE_ONE,
                metadata_json: metadata(msg, definition),
                registered_at: None,
            };
            assert(made@ =~= capability_of(node_id@, *msg, *definition)->0);
            Some(made)
        },
        _ => None,
    }
}

/// Maps a registration to an advertisement of the node that sent it.
pub fn from_registration(node_id: &str, msg: &Registration) -> (advertisement:
    CapabilityAdvertisement)
    ensures
        advertisement@ == registered(node_id@, *msg),
{
    let mut capabilities: Vec<Capability> = Vec::new();
    let ghost all = msg.node_definition@;
    let mut i: usize = 0;
    proof {
        assert(capabilities@.map_values(|c: Capability| c@) =~= capabilities_of(
            node_id@,
            *msg,
            all.take(0),
        ));
    }
    while i < msg.node_definition.len()
        invariant
            i <= msg.node_definition@.len(),
            all == msg.node_definition@,
            capabilities@.map_values(|c: Capability| c@) == capabilities_of(
                node_id@,
                *msg,
                all.take(i as int),
            ),
        decreases msg.node_definition@.len() - i,
    {
        let ghost before = capabilities@;
        proof {
            assert(all.take(i + 1).drop_last() =~= all.take(i as int));
            assert(all.take(i + 1).last() == all[i as int]);
        }
        match capability(node_id, msg, &msg.node_definition[i]) {
            Some(c) => {
                capabilities.push(c);
                proof {
                    assert(capabilities@.map_values(|c: Capability| c@) =~= before.map_values(
                        |c: Capability| c@,
                    ).push(c@));
                }
            },
            None => {},
        }
        i = i + 1;
    }
    proof {
        assert(all.take(all.len() as int) =~= all);
    }
    let advertisement = CapabilityAdvertisement {
        node_id: node_id.to_owned(),
        advertised_at: None,
        capabilities,
        resources: None,
        operational_status: WireEnum::Known(OperationalStatus::Ready),
    };
    assert(advertisement@ =~= registered(node_id@, *msg));
    advertisement
}

/// A registration goes definition by definition: no definition gives nothing, one
/// of known type gives one capability, any other gives none, and two rows of
/// definitions give what each gives, in that order.
pub proof fn law_capabilities_go_definition_by_definition(
    node_id: Seq<char>,
    msg: Registration,
    definition: NodeDefinition,
    head: Seq<NodeDefinition>,
    tail: Seq<NodeDefinition>,
)
    ensures
        capabilities_of(node_id, msg, Seq::empty()).len() == 0,
        capabilities_of(node_id, msg, seq![definition]).len() == if definition.node_type matches Some(
            WireEnum::Known(_),
        ) {
            1nat
        } else {
            0nat
        },
        definition.node_type matches Some(WireEnum::Known(_)) ==> capability_of(
            node_id,
            msg,
            definition,
        ) == Some(capabilities_of(node_id, msg, seq![definition])[0]),
        capabilities_of(node_id, msg, head + tail) == capabilities_of(node_id, msg, head)
            + capabilities_of(node_id, msg, tail),
    decreases tail.len(),
{
    reveal_with_fuel(capabilities_of, 2);
    assert(seq![definition].drop_last() =~= Seq::<NodeDefinition>::empty());
    if tail.len() == 0 {
        assert(head + tail =~= head);
        assert(capabilities_of(node_id, msg, head + tail) =~= capabilities_of(node_id, msg, head)
            + capabilities_of(node_id, msg, tail));
    } else {
        law_capabilities_go_definition_by_definition(
            node_id,
            msg,
            definition,
            head,
            tail.drop_last(),
        );
        assert((head + tail).drop_last() =~= head + tail.drop_last());
        assert((head + tail).last() == tail.last());
        assert(capabilities_of(node_id, msg, head + tail) =~= capabilities_of(node_id, msg, head)
            + capabilities_of(node_id, msg, tail));
    }
}

/// Every capability of a node is named after the type of node that it comes from,
/// identified by the node and that name, and certain.
pub proof fn law_capability_is_named_after_its_type(
    node_id: Seq<char>,
    msg: Registration,
    definition: NodeDefinition,
    made: CapabilityModel,
)
    requires
        capability_of(node_id, msg, definition) == Some(made),
    ensures
        definition.node_type matches Some(WireEnum::Known(nt)) && made.name == (match nt {
            NodeType::Unspecified => "Unspecified"@,
            NodeType::Other => "Other"@,
            NodeType::Radar => "Radar"@,
            NodeType::Lidar => "Lidar"@,
            NodeType::Camera => "Camera"@,
            NodeType::Seismic => "Seismic"@,
            NodeType::Acoustic => "Acoustic"@,
            NodeType::ProximitySensor => "ProximitySensor"@,
            NodeType::PassiveRf => "PassiveRf"@,
            NodeType::Human => "Human"@,
            NodeType::Chemical => "Chemical"@,
            NodeType::Biological => "Biological"@,
            NodeType::Radiation => "Radiation"@,
            NodeType::Kinetic => "Kinetic"@,
            NodeType::Jammer => "Jammer"@,
            NodeType::Cyber => "Cyber"@,
            NodeType::Ldew => "Ldew"@,
            NodeType::Rfdew => "Rfdew"@,
            NodeType::MobileNode => "MobileNode"@,
            NodeType::PointableNode => "PointableNode"@,
            NodeType::FusionNode => "FusionNode"@,
        }),
        made.id == node_id + "/"@ + made.name,
        made.confidence == 0x3f80_0000,
        made.registered_at is None,
        made.metadata_json == json_text(capability_metadata(msg, definition.node_sub_type@)),
{
}

/// The kind of a capability follows from the type of node: what moves or points is
/// mobility, what acts on a target is payload, cyber is communication, fusion is
/// compute, a person or an unnamed type is unspecified, and everything else
/// senses.
pub proof fn law_kind_follows_from_the_type(
    node_id: Seq<char>,
    msg: Registration,
    definition: NodeDefinition,
    made: CapabilityModel,
)
    requires
        capability_of(node_id, msg, definition) == Some(made),
    ensures
        definition.node_type is Some && definition.node_type->0 is Known,
        ({
            let nt = definition.node_type->0->Known_0;
            let moves = nt == NodeType::MobileNode || nt == NodeType::PointableNode;
            let acts = nt == NodeType::Kinetic || nt == NodeType::Ldew || nt == NodeType::Rfdew
                || nt == NodeType::Jammer;
            let open = nt == NodeType::Human || nt == NodeType::Other || nt
                == NodeType::Unspecified;
            &&& made.capability_type == CapabilityType::Mobility <==> moves
            &&& made.capability_type == CapabilityType::Payload <==> acts
            &&& made.capability_type == CapabilityType::Communication <==> nt == NodeType::Cyber
            &&& made.capability_type == CapabilityType::Compute <==> nt == NodeType::FusionNode
            &&& made.capability_type == CapabilityType::Unspecified <==> open
            &&& made.capability_type == CapabilityType::Sensor <==> !moves && !acts && !open && nt
                != NodeType::Cyber && nt != NodeType::FusionNode
        }),
{
}

/// A registered node is ready, and its advertisement names it and says nothing of
/// its resources or of the time.
pub proof fn law_registered_node_is_ready(node_id: Seq<char>, msg: Registration)
    ensures
        registered(node_id, msg).node_id == node_id,
        registered(node_id, msg).operational_status == WireEnum::Known(OperationalStatus::Ready),
        registered(node_id, msg).advertised_at is None,
        registered(node_id, msg).resources is None,
        registered(node_id, msg).capabilities == capabilities_of(
            node_id,
            msg,
            msg.node_definition@,
        ),
{
}

/// The metadata of a capability gives the version, the name, the sub-types and the
/// make and model of its node, each where it is reported, and nothing else.
pub proof fn law_metadata_gives_what_is_reported(
    msg: Registration,
    sub_types: Seq<String>,
    name: Seq<char>,
)
    ensures
        ({
            let members = capability_metadata(msg, sub_types);
            &&& members.dom().contains(name) <==> {
                ||| name == "sapient_icd_version"@ && msg.icd_version is Some
                ||| name == "sapient_name"@ && msg.name is Some
                ||| name == "sapient_node_sub_type"@ && sub_types.len() > 0
                ||| name == "sapient_manufacturer"@ && msg.config_data@.len() > 0
                ||| name == "sapient_model"@ && msg.config_data@.len() > 0
            }
            &&& msg.icd_version matches Some(text) ==> members["sapient_icd_version"@]
                == JsonText::Text(text@)
            &&& msg.name matches Some(text) ==> members["sapient_name"@] == JsonText::Text(text@)
            &&& sub_types.len() > 0 ==> members["sapient_node_sub_type"@] == JsonText::List(
                sub_types.map_values(|s: String| s@),
            )
            &&& msg.config_data@.len() > 0 ==> members["sapient_manufacturer"@] == JsonText::Text(
                msg.config_data@[0].manufacturer@,
            ) && members["sapient_model"@] == JsonText::Text(msg.config_data@[0].model@)
        }),
{
    reveal_strlit("sapient_icd_version");
    reveal_strlit("sapient_name");
    reveal_strlit("sapient_node_sub_type");
    reveal_strlit("sapient_manufacturer");
    reveal_strlit("sapient_model");
    assert("sapient_icd_version"@.len() == 19);
    assert("sapient_name"@.len() == 12);
    assert("sapient_node_sub_type"@.len() == 21);
    assert("sapient_manufacturer"@.len() == 20);
    assert("sapient_model"@.len() == 13);
}

} // verus!
