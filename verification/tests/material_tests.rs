use glowy::material::{GlowyMaterial, RenderPass};

#[test]
fn shader_is_identical_for_main_and_prepass() {
    let main = GlowyMaterial::fragment_shader();
    let prepass = GlowyMaterial::prepass_fragment_shader();
    assert_eq!(main, prepass);
    assert_eq!(main, "shaders/glowy.wgsl");
}

#[test]
fn shader_for_either_pass_is_the_one_program() {
    assert_eq!(
        GlowyMaterial::shader_for(RenderPass::Main),
        GlowyMaterial::shader_for(RenderPass::Prepass),
    );
    assert_eq!(GlowyMaterial::shader_for(RenderPass::Main), "shaders/glowy.wgsl");
}
