use depot::templates::{TemplateMetadata, TemplateRenderer, TemplateVariable};

#[test]
fn test_template_variable_default() {
    let var = TemplateVariable {
        name: "test_var".to_string(),
        description: Some("Test variable".to_string()),
        default: Some("default_value".to_string()),
        required: false,
    };
    assert_eq!(var.name, "test_var");
    assert_eq!(var.default, Some("default_value".to_string()));
}

fn renderer(variables: Vec<TemplateVariable>) -> TemplateRenderer {
    TemplateRenderer::new(
        "/templates/basic".to_string(),
        TemplateMetadata {
            name: "basic".to_string(),
            description: "Basic".to_string(),
            author: None,
            version: None,
            variables,
        },
    )
}

#[test]
fn test_template_renderer_missing_required_variable() {
    let r = renderer(vec![TemplateVariable {
        name: "required_var".to_string(),
        description: None,
        default: None,
        required: true,
    }]);
    let result = r.check_required(&vec![]);
    assert!(result.is_err());
    assert!(result.unwrap_err().to_string().contains("Required template variable"));
}

#[test]
fn template_substitution_uses_values_then_defaults() {
    let r = renderer(vec![
        TemplateVariable {
            name: "project_name".to_string(),
            description: None,
            default: Some("fallback".to_string()),
            required: false,
        },
        TemplateVariable {
            name: "license".to_string(),
            description: None,
            default: Some("MIT".to_string()),
            required: false,
        },
    ]);
    let vars = vec![("project_name".to_string(), "demo".to_string())];
    let out = r.substitute_variables("{{project_name}} ({{license}}) {{other}}", &vars);
    assert_eq!(out, "demo (MIT) {{other}}");
    assert!(r.check_required(&vars).is_ok());
}
