//! Device definitions as the server core receives them: for each kind of
//! device, the identity it is discovered under, the name it is shown
//! under, and the features it has.

use crate::device_feature::{catalog_view, copy_catalog, DeviceFeature, DescriptorView};
use crate::errors::ButtplugError;
use vstd::prelude::*;

verus! {

/// What a device definition says.
pub struct DefinitionView {
    pub identifier: Seq<char>,
    pub name: Seq<char>,
    pub features: Seq<DescriptorView>,
}

/// Whether every feature of a catalog is consistent.
pub open spec fn all_consistent(features: Seq<DescriptorView>) -> bool {
    forall|i: int| 0 <= i < features.len() ==> (#[trigger] features[i]).is_consistent()
}

/// The first definition in `definitions` for the identity `identifier`.
pub open spec fn first_definition(
    definitions: Seq<DefinitionView>,
    identifier: Seq<char>,
) -> Option<DefinitionView>
    decreases definitions.len(),
{
    if definitions.len() == 0 {
        None
    } else if definitions[0].identifier == identifier {
        Some(definitions[0])
    } else {
        first_definition(definitions.skip(1), identifier)
    }
}

/// The definition of one kind of device. Its features are consistent, each
/// of them.
#[derive(Debug)]
pub struct DeviceDefinition {
    identifier: String,
    name: String,
    features: Vec<DeviceFeature>,
}

impl View for DeviceDefinition {
    type V = DefinitionView;

    closed spec fn view(&self) -> DefinitionView {
        DefinitionView {
            identifier: self.identifier@,
            name: self.name@,
            features: catalog_view(self.features@),
        }
    }
}

impl DeviceDefinition {
    #[verifier::type_invariant]
    spec fn features_consistent(self) -> bool {
        all_consistent(catalog_view(self.features@))
    }

    /// The definition of the devices discovered under `identifier`, with a
    /// copy of `features`. It is refused where one of the features is not
    /// consistent.
    pub fn new(identifier: &str, name: &str, features: &Vec<DeviceFeature>) -> (outcome: Result<
        Self,
        ButtplugError,
    >)
        ensures
            outcome is Ok <==> all_consistent(catalog_view(features@)),
            outcome matches Ok(definition) ==> definition@ == (DefinitionView {
                identifier: identifier@,
                name: name@,
                features: catalog_view(features@),
            }),
            outcome matches Err(error) ==> error == ButtplugError::ConfigurationError,
    {
        let mut i: usize = 0;
        while i < features.len()
            invariant
                i <= features.len(),
                forall|j: int| 0 <= j < i ==> (#[trigger] features@[j])@.is_consistent(),
            decreases features.len() - i,
        {
            if features[i].validate().is_err() {
                assert(!catalog_view(features@)[i as int].is_consistent());
                return Err(ButtplugError::ConfigurationError);
            }
            i = i + 1;
        }
        Ok(
            DeviceDefinition {
                identifier: identifier.to_owned(),
                name: name.to_owned(),
                features: copy_catalog(features),
            },
        )
    }

    /// The identity under which such a device is discovered.
    pub fn identifier(&self) -> (identifier: &String)
        ensures
            identifier@ == self@.identifier,
    {
        &self.identifier
    }

    /// The name under which such a device is shown.
    pub fn name(&self) -> (name: &String)
        ensures
            name@ == self@.name,
    {
        &self.name
    }

    /// The features of such a device, each of them consistent.
    pub fn features(&self) -> (features: &Vec<DeviceFeature>)
        ensures
            catalog_view(features@) == self@.features,
            all_consistent(self@.features),
    {
        proof {
            use_type_invariant(&*self);
        }
        &self.features
    }
}

/// What a list of definitions says, definition by definition.
pub open spec fn definitions_view(definitions: Seq<DeviceDefinition>) -> Seq<DefinitionView> {
    Seq::new(definitions.len(), |i: int| definitions[i]@)
}

/// The definitions that the server core works with, in the order in which
/// they were added. Where two are for the same identity the earlier one
/// counts.
#[derive(Debug)]
pub struct DeviceConfiguration {
    definitions: Vec<DeviceDefinition>,
}

impl View for DeviceConfiguration {
    type V = Seq<DefinitionView>;

    closed spec fn view(&self) -> Seq<DefinitionView> {
        definitions_view(self.definitions@)
    }
}

impl DeviceConfiguration {
    /// A configuration without definitions.
    pub fn new() -> (configuration: Self)
        ensures
            configuration@ == Seq::<DefinitionView>::empty(),
    {
        let configuration = DeviceConfiguration { definitions: Vec::new() };
        assert(configuration@ =~= Seq::<DefinitionView>::empty());
        configuration
    }

    /// Adds a definition behind those that are there.
    pub fn add(&mut self, definition: DeviceDefinition)
        ensures
            final(self)@ == old(self)@.push(definition@),
    {
        self.definitions.push(definition);
        assert(self@ =~= old(self)@.push(definition@));
    }

    /// The definition for the devices discovered under `identifier`: the
    /// first one added for that identity, if there is any.
    pub fn find(&self, identifier: &String) -> (found: Option<&DeviceDefinition>)
        ensures
            found is Some == first_definition(self@, identifier@) is Some,
            found matches Some(definition) ==> first_definition(self@, identifier@) == Some(
                definition@,
            ),
    {
        let mut i: usize = 0;
        assert(self@.skip(0) =~= self@);
        while i < self.definitions.len()
            invariant
                i <= self.definitions.len(),
                first_definition(self@, identifier@) == first_definition(
                    self@.skip(i as int),
                    identifier@,
                ),
            decreases self.definitions.len() - i,
        {
            let definition = &self.definitions[i];
            proof {
                assert(self@.skip(i as int)[0] == definition@);
                assert(self@.skip(i as int).skip(1) =~= self@.skip(i + 1));
            }
            if definition.identifier == *identifier {
                return Some(definition);
            }
            i = i + 1;
        }
        None
    }
}

} // verus!
