use vstd::prelude::*;

verus! {

/// The host commands this effect cares about. Every other command the host
/// may send is `Other`.
#[derive(Clone, Copy, Debug, PartialEq, Eq, Structural)]
pub enum Command {
    About,
    GlobalSetup,
    Render,
    SmartPreRender,
    SmartRender,
    Other,
}

/// What a command asks of the effect. Unhandled commands are an explicit
/// `Ignore` outcome — many host commands are irrelevant to this effect — and
/// not an error.
#[derive(Clone, Copy, Debug, PartialEq, Eq, Structural)]
pub enum Disposition {
    ReturnAboutText,
    DeclareFormats,
    RunRender,
    NegotiatePreRender,
    RunSmartRender,
    Ignore,
}

/// Select the behavior for one host command.
pub fn dispatch(cmd: Command) -> (d: Disposition)
    ensures
        d == (match cmd {
            Command::About => Disposition::ReturnAboutText,
            Command::GlobalSetup => Disposition::DeclareFormats,
            Command::Render => Disposition::RunRender,
            Command::SmartPreRender => Disposition::NegotiatePreRender,
            Command::SmartRender => Disposition::RunSmartRender,
            Command::Other => Disposition::Ignore,
        }),
{
    match cmd {
        Command::About => Disposition::ReturnAboutText,
        Command::GlobalSetup => Disposition::DeclareFormats,
        Command::Render => Disposition::RunRender,
        Command::SmartPreRender => Disposition::NegotiatePreRender,
        Command::SmartRender => Disposition::RunSmartRender,
        Command::Other => Disposition::Ignore,
    }
}

/// The effect loads on every host.
pub fn can_load(_host_name: &str, _host_version: &str) -> (r: bool)
    ensures
        r,
{
    true
}

/// The static descriptive text returned for the about command.
pub fn about_message() -> (m: &'static str)
    ensures
        m@ == "{{display-name}}\r{{copyright}}\r{{description}}"@,
{
    "{{display-name}}\r{{copyright}}\r{{description}}"
}

/// The registration of one percentage slider parameter, as declared to the
/// host: bounds, default, displayed precision and the percent suffix.
#[derive(Clone, Copy, Debug, PartialEq, Eq, Structural)]
pub struct SliderParam {
    pub valid_min: i32,
    pub valid_max: i32,
    pub slider_min: i32,
    pub slider_max: i32,
    pub default: i32,
    pub precision: u8,
    pub percent_display: bool,
}

/// The one parameter of this effect: the adjustment amount, a percentage
/// slider over [0, 100] with default 50, shown with two decimal places and a
/// percent suffix.
pub fn params_setup() -> (p: SliderParam)
    ensures
        p == (SliderParam {
            valid_min: 0,
            valid_max: 100,
            slider_min: 0,
            slider_max: 100,
            default: 50,
            precision: 2,
            percent_display: true,
        }),
{
    SliderParam {
        valid_min: 0,
        valid_max: 100,
        slider_min: 0,
        slider_max: 100,
        default: 50,
        precision: 2,
        percent_display: true,
    }
}

/// The display name under which the amount parameter is registered.
pub fn param_name() -> (s: &'static str)
    ensures
        s@ == "Example"@,
{
    "Example"
}

/// A pixel format as advertised to the secondary host.
#[derive(Clone, Copy, Debug, PartialEq, Eq, Structural)]
pub enum PixelFormat {
    Bgra32f,
    Bgra16u,
    Bgra8u,
}

/// The pixel formats to declare during global setup, most preferred first.
/// Only the secondary host asks for this list; on the primary host global
/// setup declares nothing.
pub fn supported_formats(premiere: bool) -> (r: Option<Vec<PixelFormat>>)
    ensures
        premiere ==> (r matches Some(v) && v@.len() == 3 && v@[0] == PixelFormat::Bgra32f && v@[1]
            == PixelFormat::Bgra16u && v@[2] == PixelFormat::Bgra8u),
        !premiere ==> r is None,
{
    if premiere {
        let mut v: Vec<PixelFormat> = Vec::new();
        v.push(PixelFormat::Bgra32f);
        v.push(PixelFormat::Bgra16u);
        v.push(PixelFormat::Bgra8u);
        Some(v)
    } else {
        None
    }
}

} // verus!
