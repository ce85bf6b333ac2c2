//! The static catalog of Audient iD models and their channel counts.

use vstd::prelude::*;

use crate::routing::RoutingScheme;

verus! {

/// Audient's USB vendor identifier.
pub const AUDIENT_VENDOR_ID: u16 = 0x2708;

/// Static capabilities needed to construct controls for an interface.
#[derive(Clone, Copy, Debug, PartialEq, Eq)]
pub struct DeviceModel {
    pub name: &'static str,
    pub product_id: u16,
    pub mic_inputs: u8,
    pub digital_inputs: u8,
    pub analog_outputs: u8,
    pub digital_outputs: u8,
    pub inserts: u8,
    /// Known-safe routing wire mapping. `None` means there is no
    /// sufficiently evidenced mapping, even if the hardware routes audio.
    pub routing: Option<RoutingScheme>,
}

impl DeviceModel {
    fn new(
        name: &'static str,
        product_id: u16,
        mic_inputs: u8,
        digital_inputs: u8,
        analog_outputs: u8,
        digital_outputs: u8,
        inserts: u8,
        routing: Option<RoutingScheme>,
    ) -> (model: Self)
        ensures
            model == (DeviceModel {
                name,
                product_id,
                mic_inputs,
                digital_inputs,
                analog_outputs,
                digital_outputs,
                inserts,
                routing,
            }),
    {
        Self {
            name,
            product_id,
            mic_inputs,
            digital_inputs,
            analog_outputs,
            digital_outputs,
            inserts,
            routing,
        }
    }
}

/// The Audient iD models with known product IDs and counts, in catalog order.
pub open spec fn catalog() -> Seq<DeviceModel> {
    seq![
        DeviceModel { name: "iD4", product_id: 0x0003, mic_inputs: 1, digital_inputs: 0, analog_outputs: 2, digital_outputs: 0, inserts: 0, routing: None },
        DeviceModel { name: "iD4 MKII", product_id: 0x0009, mic_inputs: 1, digital_inputs: 0, analog_outputs: 2, digital_outputs: 0, inserts: 0, routing: None },
        DeviceModel { name: "iD14", product_id: 0x0002, mic_inputs: 2, digital_inputs: 8, analog_outputs: 4, digital_outputs: 0, inserts: 0, routing: None },
        DeviceModel { name: "iD14 MKII", product_id: 0x0008, mic_inputs: 2, digital_inputs: 8, analog_outputs: 4, digital_outputs: 0, inserts: 0, routing: Some(RoutingScheme::Id14Table) },
        DeviceModel { name: "iD22", product_id: 0x0001, mic_inputs: 2, digital_inputs: 8, analog_outputs: 4, digital_outputs: 8, inserts: 2, routing: None },
        DeviceModel { name: "iD24", product_id: 0x000d, mic_inputs: 2, digital_inputs: 10, analog_outputs: 4, digital_outputs: 14, inserts: 2, routing: Some(RoutingScheme::Id24Formula) },
        DeviceModel { name: "iD44", product_id: 0x0005, mic_inputs: 4, digital_inputs: 16, analog_outputs: 4, digital_outputs: 16, inserts: 2, routing: None },
        DeviceModel { name: "iD44 MKII", product_id: 0x000b, mic_inputs: 4, digital_inputs: 16, analog_outputs: 4, digital_outputs: 16, inserts: 2, routing: None },
        DeviceModel { name: "iD48", product_id: 0x0012, mic_inputs: 8, digital_inputs: 16, analog_outputs: 4, digital_outputs: 16, inserts: 8, routing: None },
    ]
}

/// The first model in `models` with the given product ID.
pub open spec fn find_model(models: Seq<DeviceModel>, product_id: u16) -> Option<DeviceModel>
    decreases models.len(),
{
    if models.len() == 0 {
        None
    } else if models[0].product_id == product_id {
        Some(models[0])
    } else {
        find_model(models.drop_first(), product_id)
    }
}

/// Every model known to the catalog, in catalog order.
pub fn supported_devices() -> (models: Vec<DeviceModel>)
    ensures
        models@ == catalog(),
{
    let mut models = Vec::new();
    models.push(DeviceModel::new("iD4", 0x0003, 1, 0, 2, 0, 0, None));
    models.push(DeviceModel::new("iD4 MKII", 0x0009, 1, 0, 2, 0, 0, None));
    models.push(DeviceModel::new("iD14", 0x0002, 2, 8, 4, 0, 0, None));
    models.push(DeviceModel::new("iD14 MKII", 0x0008, 2, 8, 4, 0, 0, Some(RoutingScheme::Id14Table)));
    models.push(DeviceModel::new("iD22", 0x0001, 2, 8, 4, 8, 2, None));
    models.push(DeviceModel::new("iD24", 0x000d, 2, 10, 4, 14, 2, Some(RoutingScheme::Id24Formula)));
    models.push(DeviceModel::new("iD44", 0x0005, 4, 16, 4, 16, 2, None));
    models.push(DeviceModel::new("iD44 MKII", 0x000b, 4, 16, 4, 16, 2, None));
    models.push(DeviceModel::new("iD48", 0x0012, 8, 16, 4, 16, 8, None));
    assert(models@ =~= catalog());
    models
}

/// Returns the known model for an Audient product ID.
pub fn supported_device(product_id: u16) -> (model: Option<DeviceModel>)
    ensures
        model == find_model(catalog(), product_id),
{
    let models = supported_devices();
    let mut i: usize = 0;
    assert(catalog().skip(0) =~= catalog());
    while i < models.len()
        invariant
            models@ == catalog(),
            i <= models@.len(),
            find_model(catalog(), product_id) == find_model(catalog().skip(i as int), product_id),
        decreases models@.len() - i,
    {
        if models[i].product_id == product_id {
            assert(catalog().skip(i as int)[0] == models@[i as int]);
            return Some(models[i]);
        }
        assert(catalog().skip(i as int).drop_first() =~= catalog().skip(i + 1));
        i += 1;
    }
    assert(catalog().skip(i as int) =~= Seq::<DeviceModel>::empty());
    None
}

/// No two catalog entries share a product ID.
pub proof fn lemma_catalog_product_ids_unique()
    ensures
        forall|i: int, j: int|
            0 <= i < catalog().len() && 0 <= j < catalog().len() && i != j
                ==> #[trigger] catalog()[i].product_id != #[trigger] catalog()[j].product_id,
{
}

/// A product ID resolves to a model exactly when some catalog entry carries
/// it, and the model resolved is that entry.
pub proof fn lemma_supported_device_is_the_catalog_entry(product_id: u16)
    ensures
        find_model(catalog(), product_id) is Some <==> exists|i: int|
            0 <= i < catalog().len() && #[trigger] catalog()[i].product_id == product_id,
        forall|i: int|
            0 <= i < catalog().len() && #[trigger] catalog()[i].product_id == product_id
                ==> find_model(catalog(), product_id) == Some(catalog()[i]),
{
    reveal_with_fuel(find_model, 10);
    assert(catalog().drop_first().drop_first().drop_first().drop_first().drop_first().drop_first().drop_first().drop_first().drop_first().len() == 0);
}

} // verus!
