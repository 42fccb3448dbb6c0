//! The model picker: choose a provider, then one of its models.

use vstd::prelude::*;

use crate::protocol::types::ModelOptionProvider;
use crate::state::config::ChatColorsRgb;

verus! {

/// Which list the picker shows.
#[derive(Debug, Clone, Copy, PartialEq, Eq, Structural)]
pub enum ModelPickerStage {
    /// Choosing a provider.
    Provider,
    /// Choosing a model of the chosen provider.
    Model,
}

/// The model picker.
#[derive(Debug, Clone)]
pub struct ModelPicker {
    providers: Vec<ModelOptionProvider>,
    visible: bool,
    loading: bool,
    stage: ModelPickerStage,
    provider_index: usize,
    model_index: usize,
    provider_selected: Option<usize>,
    model_selected: Option<usize>,
}

/// The view of a model picker.
pub ghost struct ModelPickerView {
    pub providers: Seq<ModelOptionProvider>,
    pub visible: bool,
    pub loading: bool,
    pub stage: ModelPickerStage,
    pub provider_index: usize,
    pub model_index: usize,
    pub provider_selected: Option<usize>,
    pub model_selected: Option<usize>,
}

impl View for ModelPicker {
    type V = ModelPickerView;

    closed spec fn view(&self) -> ModelPickerView {
        ModelPickerView {
            providers: self.providers@,
            visible: self.visible,
            loading: self.loading,
            stage: self.stage,
            provider_index: self.provider_index,
            model_index: self.model_index,
            provider_selected: self.provider_selected,
            model_selected: self.model_selected,
        }
    }
}

/// The number of models a provider lists.
pub open spec fn spec_model_count(p: ModelOptionProvider) -> nat {
    match p.models {
        Some(m) => m@.len(),
        None => 0,
    }
}

/// Well-formed: the provider chosen is one of the providers, and the model
/// chosen one of its models.
pub open spec fn spec_picker_wf(v: ModelPickerView) -> bool {
    &&& v.providers.len() > 0 ==> v.provider_index < v.providers.len()
    &&& v.provider_index < v.providers.len() && spec_model_count(v.providers[v.provider_index as int]) > 0
        ==> v.model_index < spec_model_count(v.providers[v.provider_index as int])
}

/// A picker showing a fresh first page: the given providers, stage and
/// visibility, the first provider and model chosen.
pub open spec fn spec_reset(v: ModelPickerView, providers: Seq<ModelOptionProvider>, visible: bool, loading: bool) -> ModelPickerView {
    ModelPickerView {
        providers,
        visible,
        loading,
        stage: ModelPickerStage::Provider,
        provider_index: 0,
        model_index: 0,
        provider_selected: Some(0),
        model_selected: Some(0),
    }
}

/// The picker after moving down one entry, going round.
pub open spec fn spec_picker_next(v: ModelPickerView) -> ModelPickerView {
    match v.stage {
        ModelPickerStage::Provider => if v.providers.len() > 0 {
            let i = ((v.provider_index + 1) % (v.providers.len() as int)) as usize;
            ModelPickerView { provider_index: i, provider_selected: Some(i), model_index: 0, model_selected: Some(0), ..v }
        } else {
            v
        },
        ModelPickerStage::Model => if v.provider_index < v.providers.len() && spec_model_count(v.providers[v.provider_index as int]) > 0 {
            let n = spec_model_count(v.providers[v.provider_index as int]);
            let j = ((v.model_index + 1) % (n as int)) as usize;
            ModelPickerView { model_index: j, model_selected: Some(j), ..v }
        } else {
            v
        },
    }
}

/// The picker after moving up one entry, going round.
pub open spec fn spec_picker_prev(v: ModelPickerView) -> ModelPickerView {
    match v.stage {
        ModelPickerStage::Provider => if v.providers.len() > 0 {
            let i = if v.provider_index == 0 { (v.providers.len() - 1) as usize } else { (v.provider_index - 1) as usize };
            ModelPickerView { provider_index: i, provider_selected: Some(i), model_index: 0, model_selected: Some(0), ..v }
        } else {
            v
        },
        ModelPickerStage::Model => if v.provider_index < v.providers.len() && spec_model_count(v.providers[v.provider_index as int]) > 0 {
            let n = spec_model_count(v.providers[v.provider_index as int]);
            let j = if v.model_index == 0 { (n - 1) as usize } else { (v.model_index - 1) as usize };
            ModelPickerView { model_index: j, model_selected: Some(j), ..v }
        } else {
            v
        },
    }
}

fn model_count(p: &ModelOptionProvider) -> (r: usize)
    ensures
        r == spec_model_count(*p),
{
    match &p.models {
        Some(m) => m.len(),
        None => 0,
    }
}

impl ModelPicker {
    /// A hidden, empty picker.
    pub fn new(colors: ChatColorsRgb) -> (r: Self)
        ensures
            spec_picker_wf(r@),
            r@ == (ModelPickerView {
                providers: Seq::empty(),
                visible: false,
                loading: false,
                stage: ModelPickerStage::Provider,
                provider_index: 0,
                model_index: 0,
                provider_selected: None,
                model_selected: None,
            }),
    {
        let r = ModelPicker {
            providers: Vec::new(),
            visible: false,
            loading: false,
            stage: ModelPickerStage::Provider,
            provider_index: 0,
            model_index: 0,
            provider_selected: None,
            model_selected: None,
        };
        assert(r@.providers =~= Seq::<ModelOptionProvider>::empty());
        r
    }

    /// Show the picker while the providers are fetched.
    pub fn show_loading(&mut self)
        ensures
            spec_picker_wf(final(self)@),
            final(self)@ == spec_reset(old(self)@, Seq::empty(), true, true),
    {
        self.visible = true;
        self.loading = true;
        self.providers.clear();
        self.stage = ModelPickerStage::Provider;
        self.provider_index = 0;
        self.model_index = 0;
        self.provider_selected = Some(0);
        self.model_selected = Some(0);
    }

    /// Show the given providers; the picker is visible only when there are
    /// some.
    pub fn show(&mut self, providers: Vec<ModelOptionProvider>)
        ensures
            spec_picker_wf(final(self)@),
            final(self)@ == spec_reset(old(self)@, providers@, providers@.len() > 0, false),
    {
        self.providers = providers;
        self.loading = false;
        self.stage = ModelPickerStage::Provider;
        self.provider_index = 0;
        self.model_index = 0;
        self.provider_selected = Some(0);
        self.model_selected = Some(0);
        self.visible = self.providers.len() > 0;
    }

    /// Hide the picker and forget the providers.
    pub fn close(&mut self)
        ensures
            spec_picker_wf(final(self)@),
            final(self)@ == (ModelPickerView {
                providers: Seq::empty(),
                visible: false,
                loading: false,
                stage: ModelPickerStage::Provider,
                provider_index: 0,
                model_index: 0,
                provider_selected: None,
                model_selected: None,
            }),
    {
        self.visible = false;
        self.loading = false;
        self.providers.clear();
        self.stage = ModelPickerStage::Provider;
        self.provider_index = 0;
        self.model_index = 0;
        self.provider_selected = None;
        self.model_selected = None;
    }

    pub fn is_visible(&self) -> (r: bool)
        ensures
            r == self@.visible,
    {
        self.visible
    }

    pub fn is_loading(&self) -> (r: bool)
        ensures
            r == self@.loading,
    {
        self.loading
    }

    pub fn stage(&self) -> (r: ModelPickerStage)
        ensures
            r == self@.stage,
    {
        self.stage
    }

    /// The providers.
    pub fn providers(&self) -> (r: &[ModelOptionProvider])
        ensures
            r@ == self@.providers,
    {
        self.providers.as_slice()
    }

    /// The position of the provider chosen.
    pub fn provider_index(&self) -> (r: usize)
        ensures
            r == self@.provider_index,
    {
        self.provider_index
    }

    /// The position of the model chosen.
    pub fn model_index(&self) -> (r: usize)
        ensures
            r == self@.model_index,
    {
        self.model_index
    }

    /// The highlighted rows of the provider list and of the model table.
    pub fn selections(&self) -> (r: (Option<usize>, Option<usize>))
        ensures
            r == (self@.provider_selected, self@.model_selected),
    {
        (self.provider_selected, self.model_selected)
    }

    /// The provider chosen, while the picker is visible.
    pub fn selected_provider(&self) -> (r: Option<&ModelOptionProvider>)
        ensures
            (self@.visible && self@.provider_index < self@.providers.len()) ==> (r matches Some(p)
                && *p == self@.providers[self@.provider_index as int]),
            !(self@.visible && self@.provider_index < self@.providers.len()) ==> r is None,
    {
        if self.visible && self.provider_index < self.providers.len() {
            Some(&self.providers[self.provider_index])
        } else {
            None
        }
    }

    /// The model chosen, while choosing among models.
    pub fn selected_model(&self) -> (r: Option<String>)
        ensures
            ({
                let v = self@;
                let ok = v.stage == ModelPickerStage::Model && v.visible && v.provider_index < v.providers.len()
                    && v.model_index < spec_model_count(v.providers[v.provider_index as int]);
                &&& ok ==> (r matches Some(m) && v.providers[v.provider_index as int].models matches Some(ms)
                    && m == ms@[v.model_index as int])
                &&& !ok ==> r is None
            }),
    {
        if self.stage != ModelPickerStage::Model {
            return None;
        }
        match self.selected_provider() {
            Some(p) => match &p.models {
                Some(ms) => if self.model_index < ms.len() {
                    Some(ms[self.model_index].clone())
                } else {
                    None
                },
                None => None,
            },
            None => None,
        }
    }

    /// Move down one entry, going round.
    pub fn select_next(&mut self)
        requires
            spec_picker_wf(old(self)@),
        ensures
            spec_picker_wf(final(self)@),
            final(self)@ == spec_picker_next(old(self)@),
    {
        match self.stage {
            ModelPickerStage::Provider => {
                if self.providers.len() > 0 {
                    self.provider_index = (self.provider_index + 1) % self.providers.len();
                    self.provider_selected = Some(self.provider_index);
                    self.model_index = 0;
                    self.model_selected = Some(0);
                }
            },
            ModelPickerStage::Model => {
                if self.provider_index < self.providers.len() {
                    let n = model_count(&self.providers[self.provider_index]);
                    if n > 0 {
                        self.model_index = (self.model_index + 1) % n;
                        self.model_selected = Some(self.model_index);
                    }
                }
            },
        }
    }

    /// Move up one entry, going round.
    pub fn select_prev(&mut self)
        requires
            spec_picker_wf(old(self)@),
        ensures
            spec_picker_wf(final(self)@),
            final(self)@ == spec_picker_prev(old(self)@),
    {
        match self.stage {
            ModelPickerStage::Provider => {
                if self.providers.len() > 0 {
                    self.provider_index = if self.provider_index == 0 {
                        self.providers.len() - 1
                    } else {
                        self.provider_index - 1
                    };
                    self.provider_selected = Some(self.provider_index);
                    self.model_index = 0;
                    self.model_selected = Some(0);
                }
            },
            ModelPickerStage::Model => {
                if self.provider_index < self.providers.len() {
                    let n = model_count(&self.providers[self.provider_index]);
                    if n > 0 {
                        self.model_index = if self.model_index == 0 { n - 1 } else { self.model_index - 1 };
                        self.model_selected = Some(self.model_index);
                    }
                }
            },
        }
    }

    /// Open the chosen provider's models, where it has some. Returns whether
    /// it did.
    pub fn enter_provider(&mut self) -> (r: bool)
        requires
            spec_picker_wf(old(self)@),
        ensures
            spec_picker_wf(final(self)@),
            ({
                let v = old(self)@;
                let ok = v.stage == ModelPickerStage::Provider && v.provider_index < v.providers.len()
                    && spec_model_count(v.providers[v.provider_index as int]) > 0;
                &&& r == ok
                &&& ok ==> final(self)@ == (ModelPickerView { stage: ModelPickerStage::Model, model_index: 0, model_selected: Some(0), ..v })
                &&& !ok ==> final(self)@ == v
            }),
    {
        if self.stage == ModelPickerStage::Provider && self.provider_index < self.providers.len() {
            let n = model_count(&self.providers[self.provider_index]);
            if n > 0 {
                self.stage = ModelPickerStage::Model;
                self.model_index = 0;
                self.model_selected = Some(0);
                return true;
            }
        }
        false
    }

    /// Go back to choosing a provider.
    pub fn back_to_providers(&mut self)
        requires
            spec_picker_wf(old(self)@),
        ensures
            spec_picker_wf(final(self)@),
            final(self)@ == (ModelPickerView { stage: ModelPickerStage::Provider, model_index: 0, model_selected: Some(0), ..old(self)@ }),
    {
        self.stage = ModelPickerStage::Provider;
        self.model_index = 0;
        self.model_selected = Some(0);
    }
}

/// The area of the picker's popup inside an area: at most 80 by 24,
/// centred.
pub fn popup_rect(x: u16, y: u16, width: u16, height: u16) -> (r: (u16, u16, u16, u16))
    requires
        x + width / 2 <= u16::MAX,
        y + height / 2 <= u16::MAX,
    ensures
        ({
            let w = if width < 80 { width } else { 80 };
            let h = if height < 24 { height } else { 24 };
            r == ((x + (width - w) / 2) as u16, (y + (height - h) / 2) as u16, w, h)
        }),
{
    let w = if width < 80 { width } else { 80 };
    let h = if height < 24 { height } else { 24 };
    (x + (width - w) / 2, y + (height - h) / 2, w, h)
}

/// The number of models a provider offers, as its row shows it: the total
/// the gateway reported, or else the length of its list, or else zero.
pub fn provider_model_count(p: &ModelOptionProvider) -> (r: usize)
    ensures
        r == match p.total_models {
            Some(t) => t as nat,
            None => spec_model_count(*p),
        },
{
    match p.total_models {
        Some(t) => t,
        None => model_count(p),
    }
}

} // verus!
