use vstd::prelude::*;
use vstd::string::*;

verus! {

/// Where the server keeps the Blender installations by default.
pub const BLENDER_DATA: &'static str = "BlenderData";

/// Where the server keeps rendered images by default.
pub const RENDER_DATA: &'static str = "RenderData";

/// The file that holds the saved settings.
pub const SETTINGS_PATH: &'static str = "ServerSettings";

/// Where the server keeps project files by default.
pub const BLENDER_FILES: &'static str = "BlenderFiles";

/// The ports and directories a render server works with.
#[derive(Debug)]
pub struct ServerSettings {
    pub port: u16,
    pub broadcast_port: u16,
    pub blender_data: String,
    pub render_data: String,
    pub blender_files: String,
}

impl Default for ServerSettings {
    /// Port 15000, broadcasts on port 16342, and the default directories.
    fn default() -> (s: Self)
        ensures
            s.port == 15000,
            s.broadcast_port == 16342,
            s.blender_data@ == BLENDER_DATA@,
            s.render_data@ == RENDER_DATA@,
            s.blender_files@ == BLENDER_FILES@,
    {
        ServerSettings {
            port: 15000,
            broadcast_port: 16342,
            blender_data: String::from_str(BLENDER_DATA),
            render_data: String::from_str(RENDER_DATA),
            blender_files: String::from_str(BLENDER_FILES),
        }
    }
}

} // verus!
