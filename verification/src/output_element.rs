use vstd::prelude::*;
use vstd::string::*;

verus! {

/// The name of the output element that publishes the latest definition.
pub const OUTPUT_ELEMENT_NAME: &'static str = "latest_definition";

/// How a missing output configuration is reported.
pub const MISSING_OUTPUT_CONFIG: &'static str =
    "failed to find output api with id 'latest_definition'";

/// The API configuration: the inputs and outputs the service talks on.
#[verifier::external_type_specification]
#[verifier::external_body]
pub struct ExApi(cooplan_lapin_wrapper::config::api::Api);

/// The configuration of one output.
#[verifier::external_type_specification]
#[verifier::external_body]
pub struct ExAmqpOutputApi(cooplan_lapin_wrapper::config::amqp_output_api::AmqpOutputApi);

/// An output element, ready to publish.
#[verifier::external_type_specification]
#[verifier::external_body]
pub struct ExAmqpOutputElement(cooplan_amqp_api::api::output::amqp_output_element::AmqpOutputElement);

/// Where states are reported.
#[verifier::external_type_specification]
#[verifier::external_body]
pub struct ExStateTrackerClient(cooplan_state_tracker::state_tracker_client::StateTrackerClient);

/// The outputs an API configuration holds, each by its id, in the order in
/// which the configuration lists them.
pub uninterp spec fn output_api_ids(api: cooplan_lapin_wrapper::config::api::Api) -> Seq<Seq<char>>;

/// The configuration of the output at `index` among the outputs of `api`.
pub uninterp spec fn output_config(
    api: cooplan_lapin_wrapper::config::api::Api,
    index: int,
) -> cooplan_lapin_wrapper::config::amqp_output_api::AmqpOutputApi;

/// The output element named `name`, publishing as `config` says and
/// reporting through `state_tracker`; it depends on these alone.
pub uninterp spec fn output_element_of(
    name: Seq<char>,
    config: cooplan_lapin_wrapper::config::amqp_output_api::AmqpOutputApi,
    state_tracker: cooplan_state_tracker::state_tracker_client::StateTrackerClient,
) -> cooplan_amqp_api::api::output::amqp_output_element::AmqpOutputElement;

/// The position of the first of `ids` equal to `id`; meaningful when some
/// of them is.
pub open spec fn first_index_of(ids: Seq<Seq<char>>, id: Seq<char>) -> int {
    choose|index: int|
        0 <= index < ids.len() && ids[index] == id && forall|j: int|
            0 <= j < index ==> ids[j] != id
}

/// The ids of the outputs of `api`, in order.
///
/// Walks `Api::output` and takes `AmqpOutputApi::id` of each output.
#[verifier::external_body]
pub(crate) fn output_ids(api: &cooplan_lapin_wrapper::config::api::Api) -> (ids: Vec<String>)
    ensures
        ids@.len() == output_api_ids(*api).len(),
        forall|i: int| 0 <= i < ids@.len() ==> ids@[i]@ == output_api_ids(*api)[i],
{
    let mut ids = Vec::new();
    for output in api.output() {
        ids.push(output.id().to_string());
    }
    ids
}

/// A copy of the configuration of the output at `index`.
///
/// Clones the element of `Api::output` at `index`, which the caller keeps
/// within the outputs.
#[verifier::external_body]
pub(crate) fn output_config_at(
    api: &cooplan_lapin_wrapper::config::api::Api,
    index: usize,
) -> (config: cooplan_lapin_wrapper::config::amqp_output_api::AmqpOutputApi)
    requires
        index < output_api_ids(*api).len(),
    ensures
        config == output_config(*api, index as int),
{
    api.output()[index].clone()
}

/// An output element named `name` that publishes as `config` says.
///
/// Calls `AmqpOutputElement::new`, which also names the state tracker client
/// after the element; the element depends on its arguments alone and is named
/// `output_element_of`.
#[verifier::external_body]
pub(crate) fn new_output_element(
    name: String,
    config: cooplan_lapin_wrapper::config::amqp_output_api::AmqpOutputApi,
    state_tracker: cooplan_state_tracker::state_tracker_client::StateTrackerClient,
) -> (element: cooplan_amqp_api::api::output::amqp_output_element::AmqpOutputElement)
    ensures
        element == output_element_of(name@, config, state_tracker),
{
    cooplan_amqp_api::api::output::amqp_output_element::AmqpOutputElement::new(
        name,
        config,
        state_tracker,
    )
}

/// The index of the first of `ids` equal to `id`, if any.
pub fn find_id(ids: &Vec<String>, id: &str) -> (found: Option<usize>)
    ensures
        match found {
            Some(index) => {
                &&& index < ids@.len()
                &&& ids@[index as int]@ == id@
                &&& forall|j: int| 0 <= j < index ==> ids@[j]@ != id@
            },
            None => forall|j: int| 0 <= j < ids@.len() ==> ids@[j]@ != id@,
        },
{
    let wanted = String::from_str(id);
    let mut index: usize = 0;
    while index < ids.len()
        invariant
            index <= ids@.len(),
            wanted@ == id@,
            forall|j: int| 0 <= j < index ==> ids@[j]@ != id@,
        decreases ids@.len() - index,
    {
        if ids[index] == wanted {
            return Some(index);
        }
        index = index + 1;
    }
    None
}

/// A failure to set the service up from its configuration.
#[derive(Debug)]
pub struct ConfigurationFailure {
    pub message: String,
}

/// The output element that publishes the latest definition, set up from the
/// first output of `api` whose id is `latest_definition`; a configuration
/// without such an output is a failure.
pub fn get(
    api: &cooplan_lapin_wrapper::config::api::Api,
    state_sender: cooplan_state_tracker::state_tracker_client::StateTrackerClient,
) -> (element: Result<
    cooplan_amqp_api::api::output::amqp_output_element::AmqpOutputElement,
    ConfigurationFailure,
>)
    ensures
        element is Ok <==> output_api_ids(*api).contains(OUTPUT_ELEMENT_NAME@),
        element matches Ok(built) ==> built == output_element_of(
            OUTPUT_ELEMENT_NAME@,
            output_config(*api, first_index_of(output_api_ids(*api), OUTPUT_ELEMENT_NAME@)),
            state_sender,
        ),
        element matches Err(failure) ==> failure.message@ == MISSING_OUTPUT_CONFIG@,
{
    let ids = output_ids(api);
    match find_id(&ids, OUTPUT_ELEMENT_NAME) {
        Some(index) => {
            proof {
                let ids_view = output_api_ids(*api);
                assert(ids_view[index as int] == OUTPUT_ELEMENT_NAME@);
                assert forall|j: int| 0 <= j < index implies ids_view[j] != OUTPUT_ELEMENT_NAME@ by {
                    assert(ids@[j]@ != OUTPUT_ELEMENT_NAME@);
                }
                let chosen = first_index_of(ids_view, OUTPUT_ELEMENT_NAME@);
                assert(0 <= chosen < ids_view.len() && ids_view[chosen] == OUTPUT_ELEMENT_NAME@
                    && forall|j: int| 0 <= j < chosen ==> ids_view[j] != OUTPUT_ELEMENT_NAME@);
                if chosen < index {
                    assert(ids_view[chosen] != OUTPUT_ELEMENT_NAME@);
                } else if chosen > index {
                    assert(ids_view[index as int] != OUTPUT_ELEMENT_NAME@);
                }
                assert(chosen == index);
            }
            let config = output_config_at(api, index);
            Ok(new_output_element(String::from_str(OUTPUT_ELEMENT_NAME), config, state_sender))
        },
        None => {
            proof {
                assert forall|j: int|
                    0 <= j < output_api_ids(*api).len() implies output_api_ids(*api)[j]
                    != OUTPUT_ELEMENT_NAME@ by {
                    assert(ids@[j]@ != OUTPUT_ELEMENT_NAME@);
                }
            }
            Err(ConfigurationFailure { message: String::from_str(MISSING_OUTPUT_CONFIG) })
        },
    }
}

} // verus!
