//! Plans for assembling a media pipeline.
//!
//! A plan lists, in order, which elements to create, when to put them into
//! the pipeline and how to link them. Carrying it out stops at the first
//! step that fails, with that step's context as the message.
use vstd::prelude::*;

verus! {

/// One of the two places that sound can be captured from.
#[derive(Debug, Clone, Copy, PartialEq, Eq, Hash, Structural)]
pub enum Capture {
    /// The microphone.
    Mic,
    /// What the system is playing.
    System,
}

/// What an element is in a pipeline for.
#[derive(Debug, Clone, Copy, PartialEq, Eq, Hash, Structural)]
pub enum Part {
    /// Where the pictures come from.
    Source,
    /// Pins the frame rate.
    VideoCaps,
    /// Converts to a colour space that the encoder takes.
    Convert,
    /// Splits the pictures between recording and preview.
    Tee,
    /// Decouples the recording branch from the tee.
    RecordQueue,
    /// Encodes the pictures.
    Encoder,
    /// Aligns the encoded pictures for the muxer.
    Parse,
    /// Puts pictures and sound into one stream.
    Mux,
    /// Writes the file.
    FileSink,
    /// Decouples the preview branch from the tee.
    PreviewQueue,
    /// Shrinks pictures for the preview.
    PreviewScale,
    /// Pins the preview's format and width.
    PreviewCaps,
    /// Takes the preview's pictures; it exists before the pipeline does.
    PreviewSink,
    /// Where sound comes from.
    AudioSource(Capture),
    /// Converts the sample format.
    AudioConvert(Capture),
    /// Converts the sample rate.
    AudioResample(Capture),
    /// Pins rate and channels.
    AudioCaps(Capture),
    /// Mixes two captures.
    Mixer,
    /// Pins rate and channels behind the mixer.
    MixCaps,
    /// Encodes the sound.
    AudioEncoder,
    /// Aligns the encoded sound for the muxer.
    AudioParse,
}

/// The value of one field of a media format.
#[derive(Debug, Clone, Copy)]
pub enum CapsValue {
    Int(i32),
    Fraction(i32, i32),
    Text(&'static str),
}

/// One field of a media format.
#[derive(Debug, Clone, Copy)]
pub struct CapsField {
    pub name: &'static str,
    pub value: CapsValue,
}

/// A media format that a capsfilter lets through.
#[derive(Debug)]
pub struct Caps {
    pub media: &'static str,
    pub fields: Vec<CapsField>,
}

/// The value of an element's property.
#[derive(Debug)]
pub enum Value {
    Bool(bool),
    Int(i32),
    Unsigned(u32),
    Long(u64),
    Text(String),
    /// A value given by its name, to be read by the property's own type.
    Keyword(String),
    Caps(Caps),
    /// The device that the latest `Action::LookupMonitor` found.
    DefaultMonitor,
}

/// A property of an element.
#[derive(Debug)]
pub struct Property {
    pub name: &'static str,
    pub value: Value,
}

/// An element to create.
#[derive(Debug)]
pub struct Element {
    pub factory: &'static str,
    pub name: Option<&'static str>,
    pub properties: Vec<Property>,
}

/// What a step does.
#[derive(Debug)]
pub enum Action {
    /// Create an element.
    Make(Part, Element),
    /// Put elements into the pipeline.
    Add(Vec<Part>),
    /// Link each element to the one after it.
    Link(Vec<Part>),
    /// Find the monitor device of the default sink.
    LookupMonitor,
    /// Give up: the output path is not valid UTF-8.
    RejectPath,
    /// Give up, with the step's context as the reason.
    Refuse,
}

/// One step of a plan, with the message for when it fails.
#[derive(Debug)]
pub struct Step {
    pub action: Action,
    pub context: String,
}

/// The steps that assemble a pipeline.
#[derive(Debug)]
pub struct Plan {
    pub name: &'static str,
    pub steps: Vec<Step>,
}

/// The model of a `CapsValue`.
pub ghost enum CapsValueModel {
    Int(i32),
    Fraction(i32, i32),
    Text(Seq<char>),
}

/// The model of `Caps`: the media type and its fields in order.
pub ghost struct CapsModel {
    pub media: Seq<char>,
    pub fields: Seq<(Seq<char>, CapsValueModel)>,
}

/// The model of a `Value`.
pub ghost enum ValueModel {
    Bool(bool),
    Int(i32),
    Unsigned(u32),
    Long(u64),
    Text(Seq<char>),
    Keyword(Seq<char>),
    Caps(CapsModel),
    DefaultMonitor,
}

/// The model of an `Element`.
pub ghost struct ElementModel {
    pub factory: Seq<char>,
    pub name: Option<Seq<char>>,
    pub properties: Seq<(Seq<char>, ValueModel)>,
}

/// The model of an `Action`.
pub ghost enum ActionModel {
    Make(Part, ElementModel),
    Add(Seq<Part>),
    Link(Seq<Part>),
    LookupMonitor,
    RejectPath,
    Refuse,
}

/// The model of a `Step`.
pub ghost struct StepModel {
    pub action: ActionModel,
    pub context: Seq<char>,
}

impl View for CapsValue {
    type V = CapsValueModel;

    open spec fn view(&self) -> CapsValueModel {
        match self {
            CapsValue::Int(n) => CapsValueModel::Int(*n),
            CapsValue::Fraction(n, d) => CapsValueModel::Fraction(*n, *d),
            CapsValue::Text(s) => CapsValueModel::Text(s@),
        }
    }
}

impl View for Caps {
    type V = CapsModel;

    open spec fn view(&self) -> CapsModel {
        CapsModel {
            media: self.media@,
            fields: self.fields@.map_values(|f: CapsField| (f.name@, f.value@)),
        }
    }
}

impl View for Value {
    type V = ValueModel;

    open spec fn view(&self) -> ValueModel {
        match self {
            Value::Bool(b) => ValueModel::Bool(*b),
            Value::Int(n) => ValueModel::Int(*n),
            Value::Unsigned(n) => ValueModel::Unsigned(*n),
            Value::Long(n) => ValueModel::Long(*n),
            Value::Text(s) => ValueModel::Text(s@),
            Value::Keyword(s) => ValueModel::Keyword(s@),
            Value::Caps(c) => ValueModel::Caps(c@),
            Value::DefaultMonitor => ValueModel::DefaultMonitor,
        }
    }
}

impl View for Element {
    type V = ElementModel;

    open spec fn view(&self) -> ElementModel {
        ElementModel {
            factory: self.factory@,
            name: match self.name {
                Some(n) => Some(n@),
                None => None,
            },
            properties: self.properties@.map_values(|p: Property| (p.name@, p.value@)),
        }
    }
}

impl View for Action {
    type V = ActionModel;

    open spec fn view(&self) -> ActionModel {
        match self {
            Action::Make(part, element) => ActionModel::Make(*part, element@),
            Action::Add(parts) => ActionModel::Add(parts@),
            Action::Link(parts) => ActionModel::Link(parts@),
            Action::LookupMonitor => ActionModel::LookupMonitor,
            Action::RejectPath => ActionModel::RejectPath,
            Action::Refuse => ActionModel::Refuse,
        }
    }
}

impl View for Step {
    type V = StepModel;

    open spec fn view(&self) -> StepModel {
        StepModel { action: self.action@, context: self.context@ }
    }
}

impl View for Plan {
    type V = Seq<StepModel>;

    open spec fn view(&self) -> Seq<StepModel> {
        self.steps@.map_values(|s: Step| s@)
    }
}

impl CapsModel {
    /// A format of the given media type with no field set.
    pub open spec fn new(media: Seq<char>) -> CapsModel {
        CapsModel { media, fields: seq![] }
    }

    /// The format with one more field.
    pub open spec fn with(self, name: Seq<char>, value: CapsValueModel) -> CapsModel {
        CapsModel { fields: self.fields.push((name, value)), ..self }
    }
}

impl ElementModel {
    /// An unnamed element of the given kind with no property set.
    pub open spec fn new(factory: Seq<char>) -> ElementModel {
        ElementModel { factory, name: None, properties: seq![] }
    }

    /// The element with a name.
    pub open spec fn named(self, name: Seq<char>) -> ElementModel {
        ElementModel { name: Some(name), ..self }
    }

    /// The element with one more property.
    pub open spec fn with(self, name: Seq<char>, value: ValueModel) -> ElementModel {
        ElementModel { properties: self.properties.push((name, value)), ..self }
    }

    /// Whether the element is set up with the device found by a lookup.
    pub open spec fn uses_monitor(self) -> bool {
        exists|i: int|
            0 <= i < self.properties.len() && (#[trigger] self.properties[i]).1
                == ValueModel::DefaultMonitor
    }
}

/// The step that creates `element` as `part`.
pub open spec fn make(part: Part, element: ElementModel, context: Seq<char>) -> StepModel {
    StepModel { action: ActionModel::Make(part, element), context }
}

/// The step that puts `parts` into the pipeline.
pub open spec fn add_all(parts: Seq<Part>, context: Seq<char>) -> StepModel {
    StepModel { action: ActionModel::Add(parts), context }
}

/// The step that links `parts` one after the other.
pub open spec fn link(parts: Seq<Part>, context: Seq<char>) -> StepModel {
    StepModel { action: ActionModel::Link(parts), context }
}

/// The step that finds the monitor device of the default sink.
pub open spec fn lookup_monitor() -> StepModel {
    StepModel { action: ActionModel::LookupMonitor, context: ""@ }
}

/// The step that gives up on an output path that is not valid UTF-8.
pub open spec fn reject_path() -> StepModel {
    StepModel { action: ActionModel::RejectPath, context: "output path is not valid UTF-8"@ }
}

/// The step that gives up for `reason`.
pub open spec fn refuse(reason: Seq<char>) -> StepModel {
    StepModel { action: ActionModel::Refuse, context: reason }
}

/// What carrying out steps leaves behind.
pub ghost struct Assembly {
    /// The elements at hand.
    pub created: Set<Part>,
    /// The elements that are in the pipeline.
    pub added: Set<Part>,
    /// The links, in the order they were made.
    pub links: Seq<(Part, Part)>,
    /// Whether a monitor device has been found.
    pub monitor: bool,
    /// Whether every step so far was in order: nothing is created or added
    /// twice, only what is at hand is added, only what has been added is
    /// linked, and a found device is used only after it was looked up.
    pub orderly: bool,
    /// Whether a step gave up.
    pub refused: bool,
}

/// The links that join each of `parts` to the one after it.
pub open spec fn joints(parts: Seq<Part>) -> Seq<(Part, Part)> {
    Seq::new(
        if parts.len() > 0 {
            (parts.len() - 1) as nat
        } else {
            0
        },
        |j: int| (parts[j], parts[j + 1]),
    )
}

impl Assembly {
    /// Before the first step, with only `parts` at hand.
    pub open spec fn start(parts: Set<Part>) -> Assembly {
        Assembly {
            created: parts,
            added: Set::empty(),
            links: seq![],
            monitor: false,
            orderly: true,
            refused: false,
        }
    }

    /// After one more step.
    pub open spec fn apply(self, step: StepModel) -> Assembly {
        match step.action {
            ActionModel::Make(part, element) => Assembly {
                created: self.created.insert(part),
                orderly: self.orderly && !self.created.contains(part) && (element.uses_monitor()
                    ==> self.monitor),
                ..self
            },
            ActionModel::Add(parts) => Assembly {
                added: self.added.union(parts.to_set()),
                orderly: self.orderly && parts.no_duplicates() && (forall|j: int|
                    0 <= j < parts.len() ==> self.created.contains(#[trigger] parts[j])
                        && !self.added.contains(parts[j])),
                ..self
            },
            ActionModel::Link(parts) => Assembly {
                links: self.links + joints(parts),
                orderly: self.orderly && (forall|j: int|
                    0 <= j < parts.len() ==> self.added.contains(#[trigger] parts[j])),
                ..self
            },
            ActionModel::LookupMonitor => Assembly { monitor: true, ..self },
            ActionModel::RejectPath => Assembly { refused: true, ..self },
            ActionModel::Refuse => Assembly { refused: true, ..self },
        }
    }

    /// After the first `n` of `steps`.
    pub open spec fn after(self, steps: Seq<StepModel>, n: nat) -> Assembly
        decreases n,
    {
        if n == 0 {
            self
        } else {
            self.after(steps, (n - 1) as nat).apply(steps[n - 1])
        }
    }

    /// After all of `steps`.
    pub open spec fn run(self, steps: Seq<StepModel>) -> Assembly {
        self.after(steps, steps.len())
    }

    /// Whether the parts of `route` are linked one to the next.
    pub open spec fn leads(self, route: Seq<Part>) -> bool {
        forall|j: int| 0 <= j < joints(route).len() ==> self.links.contains(#[trigger] joints(route)[j])
    }
}

/// Carrying out two lists of steps in turn is carrying out their concatenation.
pub proof fn lemma_run_in_turn(start: Assembly, first: Seq<StepModel>, second: Seq<StepModel>)
    ensures
        start.run(first + second) == start.run(first).run(second),
{
    lemma_after_prefix(start, first, second, first.len());
    lemma_after_suffix(start, first, second, second.len());
}

proof fn lemma_after_prefix(start: Assembly, first: Seq<StepModel>, second: Seq<StepModel>, n: nat)
    requires
        n <= first.len(),
    ensures
        start.after(first + second, n) == start.after(first, n),
    decreases n,
{
    if n > 0 {
        lemma_after_prefix(start, first, second, (n - 1) as nat);
    }
}

proof fn lemma_after_suffix(start: Assembly, first: Seq<StepModel>, second: Seq<StepModel>, n: nat)
    requires
        n <= second.len(),
    ensures
        start.after(first + second, first.len() + n) == start.run(first).after(second, n),
    decreases n,
{
    if n == 0 {
        lemma_after_prefix(start, first, second, first.len());
    } else {
        lemma_after_suffix(start, first, second, (n - 1) as nat);
        assert((first + second)[first.len() + n - 1] == second[n - 1]);
        assert((first.len() + n - 1) as nat == first.len() + (n - 1) as nat);
    }
}

impl Caps {
    /// A format of the given media type with no field set.
    pub fn new(media: &'static str) -> (caps: Caps)
        ensures
            caps@ == CapsModel::new(media@),
    {
        let caps = Caps { media, fields: Vec::new() };
        assert(caps@.fields =~= seq![]);
        caps
    }

    /// The format with one more field.
    pub fn with(self, name: &'static str, value: CapsValue) -> (caps: Caps)
        ensures
            caps@ == self@.with(name@, value@),
    {
        let mut caps = self;
        caps.fields.push(CapsField { name, value });
        assert(caps@.fields =~= self@.fields.push((name@, value@)));
        caps
    }
}

impl Element {
    /// An unnamed element of the given kind with no property set.
    pub fn new(factory: &'static str) -> (element: Element)
        ensures
            element@ == ElementModel::new(factory@),
    {
        let element = Element { factory, name: None, properties: Vec::new() };
        assert(element@.properties =~= seq![]);
        element
    }

    /// The element with a name.
    pub fn named(self, name: &'static str) -> (element: Element)
        ensures
            element@ == self@.named(name@),
    {
        Element { factory: self.factory, name: Some(name), properties: self.properties }
    }

    /// The element with one more property.
    pub fn with(self, name: &'static str, value: Value) -> (element: Element)
        ensures
            element@ == self@.with(name@, value@),
    {
        let mut element = self;
        element.properties.push(Property { name, value });
        assert(element@.properties =~= self@.properties.push((name@, value@)));
        element
    }
}

impl Plan {
    /// The plan for a pipeline of the given name, with no step yet.
    pub fn new(name: &'static str) -> (plan: Plan)
        ensures
            plan.name@ == name@,
            plan@ == Seq::<StepModel>::empty(),
    {
        let plan = Plan { name, steps: Vec::new() };
        assert(plan@ =~= Seq::<StepModel>::empty());
        plan
    }

    /// Appends a step.
    fn push(&mut self, action: Action, context: &str)
        ensures
            final(self).name == old(self).name,
            final(self)@ == old(self)@.push(StepModel { action: action@, context: context@ }),
    {
        let step = Step { action, context: context.to_owned() };
        self.steps.push(step);
        assert(self@ =~= old(self)@.push(StepModel { action: action@, context: context@ }));
    }

    /// Appends the creation of `element` as `part`.
    pub fn make(&mut self, part: Part, element: Element, context: &str)
        ensures
            final(self).name == old(self).name,
            final(self)@ == old(self)@.push(make(part, element@, context@)),
    {
        self.push(Action::Make(part, element), context);
    }

    /// Appends putting `parts` into the pipeline.
    pub fn add_all(&mut self, parts: Vec<Part>, context: &str)
        ensures
            final(self).name == old(self).name,
            final(self)@ == old(self)@.push(add_all(parts@, context@)),
    {
        self.push(Action::Add(parts), context);
    }

    /// Appends linking `parts` one after the other.
    pub fn link(&mut self, parts: Vec<Part>, context: &str)
        ensures
            final(self).name == old(self).name,
            final(self)@ == old(self)@.push(link(parts@, context@)),
    {
        self.push(Action::Link(parts), context);
    }

    /// Appends finding the monitor device of the default sink.
    pub fn lookup_monitor(&mut self)
        ensures
            final(self).name == old(self).name,
            final(self)@ == old(self)@.push(lookup_monitor()),
    {
        self.push(Action::LookupMonitor, "");
    }

    /// Appends giving up on an output path that is not valid UTF-8.
    pub fn reject_path(&mut self)
        ensures
            final(self).name == old(self).name,
            final(self)@ == old(self)@.push(reject_path()),
    {
        self.push(Action::RejectPath, "output path is not valid UTF-8");
    }

    /// Appends giving up for `reason`.
    pub fn refuse(&mut self, reason: &str)
        ensures
            final(self).name == old(self).name,
            final(self)@ == old(self)@.push(refuse(reason@)),
    {
        self.push(Action::Refuse, reason);
    }
}

/// A format grows by one field at a time, and keeps what it has.
pub proof fn law_formats_grow_by_a_field(
    caps: CapsModel,
    media: Seq<char>,
    name: Seq<char>,
    value: CapsValueModel,
    i: int,
)
    ensures
        CapsModel::new(media).media == media,
        CapsModel::new(media).fields.len() == 0,
        caps.with(name, value).media == caps.media,
        caps.with(name, value).fields.len() == caps.fields.len() + 1,
        caps.with(name, value).fields.last() == (name, value),
        0 <= i < caps.fields.len() ==> caps.with(name, value).fields[i] == caps.fields[i],
{
}

/// An element grows by one property at a time, and keeps what it has.
pub proof fn law_elements_grow_by_a_property(
    element: ElementModel,
    factory: Seq<char>,
    name: Seq<char>,
    value: ValueModel,
    i: int,
)
    ensures
        ElementModel::new(factory).factory == factory,
        ElementModel::new(factory).name is None,
        ElementModel::new(factory).properties.len() == 0,
        element.named(name).name == Some(name),
        element.named(name).factory == element.factory,
        element.named(name).properties == element.properties,
        element.with(name, value).factory == element.factory,
        element.with(name, value).name == element.name,
        element.with(name, value).properties.len() == element.properties.len() + 1,
        element.with(name, value).properties.last() == (name, value),
        0 <= i < element.properties.len() ==> element.with(name, value).properties[i]
            == element.properties[i],
{
}

/// A step does the one thing that it is for, and fails with its own message.
pub proof fn law_steps_do_one_thing(
    part: Part,
    element: ElementModel,
    parts: Seq<Part>,
    context: Seq<char>,
)
    ensures
        make(part, element, context).action == ActionModel::Make(part, element),
        make(part, element, context).context == context,
        add_all(parts, context).action == ActionModel::Add(parts),
        add_all(parts, context).context == context,
        link(parts, context).action == ActionModel::Link(parts),
        link(parts, context).context == context,
        lookup_monitor().action is LookupMonitor,
        reject_path().action is RejectPath,
        reject_path().context == "output path is not valid UTF-8"@,
        refuse(context).action is Refuse,
        refuse(context).context == context,
{
}

} // verus!
