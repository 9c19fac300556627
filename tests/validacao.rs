use arqgen::{validar_com_ignoradas, validar_empreendimento, validar_empreendimentos, Empreendimento, Medida, ValidationResult};

fn novo(
    construtora: &str,
    cidade: &str,
    area_do_terreno: Medida,
    numero_de_torres: u32,
    altura_da_torre: Medida,
    area_da_torre: Medida,
    area_de_lazer: Option<Medida>,
) -> Empreendimento {
    Empreendimento {
        construtora: construtora.to_string(),
        cidade: cidade.to_string(),
        area_do_terreno,
        numero_de_torres,
        altura_da_torre,
        area_da_torre,
        area_de_lazer,
    }
}

fn u(n: i64) -> Medida {
    Medida::unidades(n)
}

fn criar_empreendimento_com_violacoes() -> Empreendimento {
    novo("Alpha", "Boituva", u(800), 6, u(35), u(200), Some(u(50)))
}

fn criar_empreendimento_valido() -> Empreendimento {
    novo("Teste", "São Paulo", u(1000), 2, u(25), u(300), Some(u(150)))
}

fn criar_empreendimento_por_cidade(cidade: &str) -> Empreendimento {
    novo("Teste", cidade, u(1000), 2, u(25), u(300), Some(u(150)))
}

fn gerar_empreendimentos_teste() -> Vec<Empreendimento> {
    vec![
        criar_empreendimento_valido(),
        criar_empreendimento_com_violacoes(),
        novo("Alpha", "São Paulo", u(1000), 2, u(25), u(300), Some(u(80))),
        novo("Teste", "Guaratinguetá", u(800), 4, u(40), u(150), Some(u(80))),
    ]
}

fn contem_mensagem(resultado: &ValidationResult, texto: &str) -> bool {
    resultado.mensagens.iter().any(|m| m.contains(texto))
}

fn tem_pelo_menos_mensagens(resultado: &ValidationResult, count: usize) -> bool {
    resultado.mensagens.len() >= count
}

fn verificar_integracao_completa() {
    let resultado = validar_empreendimentos(&[criar_empreendimento_com_violacoes()]);
    assert_eq!(resultado.len(), 1);
    assert!(!resultado[0].regras_ok, "Deve violar múltiplas regras");
    assert!(
        tem_pelo_menos_mensagens(&resultado[0], 4),
        "Deve detectar pelo menos 4 violações, encontrou {}",
        resultado[0].mensagens.len()
    );
    assert!(contem_mensagem(&resultado[0], "Altura da torre deve ser inferior a 30"));
    assert!(contem_mensagem(&resultado[0], "Área total das torres não pode exceder 80%"));
    assert!(contem_mensagem(&resultado[0], "Área de lazer insuficiente"));
}

fn verificar_regras_padrao_especificas() {
    let empreendimentos = vec![
        novo("Beta", "São Paulo", u(1000), 2, u(25), u(300), Some(u(120))),
        novo("Alpha", "São Paulo", u(1000), 2, u(25), u(300), Some(u(80))),
    ];
    let resultados = validar_empreendimentos(&empreendimentos);
    assert!(resultados[0].regras_ok, "Primeiro empreendimento deve ser válido");
    assert!(resultados[0].mensagens.is_empty());
    assert!(!resultados[1].regras_ok, "Segundo deve violar regras");
    assert!(tem_pelo_menos_mensagens(&resultados[1], 2));
    assert!(contem_mensagem(&resultados[1], "Área de lazer insuficiente"));
}

fn verificar_cidade_sem_entrada() {
    let resultados = validar_empreendimentos(&[criar_empreendimento_por_cidade("CidadeEspecial")]);
    assert_eq!(resultados.len(), 1);
    assert!(resultados[0].empreendimento == "Teste", "Deve retornar o nome da construtora corretamente");
}

fn verificar_diferentes_combinacoes() {
    let empreendimentos = gerar_empreendimentos_teste();
    let resultados = validar_empreendimentos(&empreendimentos);
    assert_eq!(resultados.len(), empreendimentos.len());
    let validos = resultados.iter().filter(|r| r.regras_ok).count();
    let invalidos = resultados.iter().filter(|r| !r.regras_ok).count();
    assert!(validos > 0);
    assert!(invalidos > 0);
    for resultado in &resultados {
        assert!(!resultado.empreendimento.is_empty());
    }
}

fn verificar_cenarios_extremos() {
    let empreendimentos = vec![
        novo("Extrema", "São Paulo", Medida::milesimos(100), 1, Medida::milesimos(100), Medida::milesimos(50), Some(Medida::milesimos(10))),
        novo("Mega", "São Paulo", u(10000), 20, u(100), u(1000), Some(u(500))),
        novo("Limite", "São Paulo", u(1000), 2, Medida::milesimos(29_999), Medida::milesimos(399_999), Some(Medida::milesimos(99_999))),
    ];
    let resultados = validar_empreendimentos(&empreendimentos);
    assert_eq!(resultados.len(), 3);
    assert!(resultados[0].regras_ok, "Empreendimento com 1 torre em São Paulo deve ser válido");
    assert!(!resultados[1].regras_ok, "Empreendimento extremamente grande deve violar regras");
    assert!(!resultados[2].regras_ok, "Empreendimento no limite deve violar regra de área de lazer");
}

fn verificar_combinacoes_complexas() {
    let especial = novo("Alpha", "Boituva", u(1000), 6, u(25), u(300), Some(u(80)));
    let resultado = validar_empreendimentos(&[especial]);
    assert_eq!(resultado.len(), 1);
    assert!(!resultado[0].regras_ok);
    assert!(tem_pelo_menos_mensagens(&resultado[0], 2));
    let mensagens = &resultado[0].mensagens;
    let tem_regra_cidade = mensagens.iter().any(|m| m.contains("torres"));
    let tem_regra_construtora = mensagens.iter().any(|m| m.contains("Área de lazer insuficiente"));
    assert!(tem_regra_cidade || tem_regra_construtora);
}

#[test]
fn test_integracao_completa_regras_negocio() {
    verificar_integracao_completa();
}

#[test]
fn deve_validar_integracao_completa_das_regras_de_negocio() {
    verificar_integracao_completa();
}

#[test]
fn test_integracao_regras_padrao_especificas() {
    verificar_regras_padrao_especificas();
}

#[test]
fn deve_aplicar_regras_padrao_e_especificas_corretamente() {
    verificar_regras_padrao_especificas();
}

#[test]
fn test_integracao_regras_ignoradas() {
    verificar_cidade_sem_entrada();
}

#[test]
fn deve_processar_regras_ignoradas_em_cidades_especiais() {
    verificar_cidade_sem_entrada();
}

#[test]
fn test_integracao_diferentes_combinacoes() {
    verificar_diferentes_combinacoes();
}

#[test]
fn deve_processar_diferentes_combinacoes_de_empreendimentos() {
    verificar_diferentes_combinacoes();
}

#[test]
fn test_integracao_cenarios_borda_extremos() {
    verificar_cenarios_extremos();
}

#[test]
fn deve_tratar_cenarios_extremos_e_limites() {
    verificar_cenarios_extremos();
}

#[test]
fn test_integracao_cenarios_especificos() {
    verificar_combinacoes_complexas();
}

#[test]
fn deve_aplicar_regras_especificas_em_combinacoes_complexas() {
    verificar_combinacoes_complexas();
}

#[test]
fn deve_validar_multiplos_empreendimentos_com_diferentes_regras() {
    let empreendimentos = vec![
        novo("Alpha", "São Paulo", u(1000), 2, u(25), u(300), Some(u(150))),
        novo("Beta", "Boituva", u(800), 6, u(35), u(200), Some(u(50))),
        novo("Alpha", "Guaratinguetá", u(1200), 3, u(28), u(250), Some(u(80))),
    ];
    let resultados = validar_empreendimentos(&empreendimentos);
    assert_eq!(resultados.len(), 3, "Deve retornar 3 resultados");
    assert!(resultados[0].regras_ok);
    assert!(resultados[0].mensagens.is_empty());
    assert!(!resultados[1].regras_ok);
    assert!(!resultados[1].mensagens.is_empty());
    assert!(resultados[1].mensagens.iter().any(|m| m.contains("Altura da torre deve ser inferior a 30")));
    assert!(!resultados[2].regras_ok);
    assert!(resultados[2].mensagens.iter().any(|m| m.contains("Área de lazer insuficiente")));
}

#[test]
fn deve_aplicar_regras_especificas_por_cidade() {
    let empreendimentos = vec![
        novo("Gamma", "Boituva", u(1000), 6, u(20), u(100), Some(u(100))),
        novo("Delta", "Guaratinguetá", u(800), 4, u(40), u(150), Some(u(80))),
    ];
    let resultados = validar_empreendimentos(&empreendimentos);
    assert!(!resultados[0].regras_ok);
    assert!(resultados[0].mensagens.iter().any(|m| m.contains("torres")));
    assert!(!resultados[1].regras_ok);
    assert!(resultados[1].mensagens.iter().any(|m| m.contains("Altura da torre")));
}

#[test]
fn deve_aplicar_regras_especificas_por_construtora() {
    let empreendimentos = vec![
        novo("Alpha", "São Paulo", u(1000), 2, u(25), u(300), Some(u(80))),
        novo("Beta", "São Paulo", u(1000), 2, u(25), u(300), Some(u(80))),
    ];
    let resultados = validar_empreendimentos(&empreendimentos);
    assert!(!resultados[0].regras_ok);
    assert!(resultados[0].mensagens.iter().any(|m| m.contains("Área de lazer insuficiente")));
    assert!(!resultados[1].regras_ok);
    assert!(resultados[1].mensagens.iter().any(|m| m.contains("Área de lazer insuficiente")));
}

#[test]
fn deve_tratar_cenarios_limite_e_edge_cases() {
    let empreendimentos = vec![
        novo("Zeta", "São Paulo", u(100), 1, u(1), u(50), None),
        novo("Eta", "São Paulo", u(1000), 2, u(30), u(300), Some(u(100))),
        novo("Theta", "São Paulo", u(1000), 4, u(25), u(200), Some(u(100))),
    ];
    let resultados = validar_empreendimentos(&empreendimentos);
    assert!(resultados[0].regras_ok);
    assert!(resultados[1].regras_ok);
    assert!(!resultados[2].regras_ok);
    assert!(resultados[2].mensagens.iter().any(|m| m.contains("Área total das torres não pode exceder 80%")));
}

#[test]
fn deve_ignorar_regras_em_cidades_especificas() {
    let empreendimentos = vec![novo("Iota", "São Paulo", u(1000), 2, u(35), u(300), Some(u(100)))];
    let resultados = validar_empreendimentos(&empreendimentos);
    assert!(resultados[0].regras_ok);
    assert!(resultados[0].mensagens.is_empty());
}

#[test]
fn alpha_em_sao_paulo_viola_so_as_regras_de_lazer() {
    let e = novo("Alpha", "São Paulo", u(1000), 2, u(25), u(300), Some(u(80)));
    let r = validar_empreendimento(&e);
    assert_eq!(
        r.mensagens,
        vec![
            "Área de lazer insuficiente: 80.00 m².".to_string(),
            "Área de lazer insuficiente para Alpha: 80.00 m².".to_string(),
        ]
    );
    assert_eq!(r.mensagens.iter().filter(|m| m.contains("para Alpha") && m.contains("80.00")).count(), 1);
    assert!(!r.regras_ok);
    assert_eq!(r.empreendimento, "Alpha");
}

#[test]
fn torre_unica_sem_lazer_passa() {
    let e = novo("Teste", "São Paulo", u(100), 1, u(1), u(50), None);
    let r = validar_empreendimento(&e);
    assert!(r.regras_ok);
    assert!(r.mensagens.is_empty());
}

#[test]
fn boituva_com_seis_torres_viola_o_limite() {
    let e = novo("Gamma", "Boituva", u(1000), 6, u(20), u(100), Some(u(100)));
    let r = validar_empreendimento(&e);
    assert_eq!(r.mensagens, vec!["Número de torres (6) excede o máximo permitido (5)".to_string()]);
    assert!(r.mensagens[0].contains("torres"));
}

#[test]
fn rio_de_janeiro_nao_cobra_area_de_lazer() {
    let e = novo("Teste", "Rio de Janeiro", u(1000), 2, u(25), u(300), None);
    let r = validar_empreendimento(&e);
    assert!(!r.mensagens.iter().any(|m| m.contains("Faltando campo 'area-de-lazer'.")));
    assert!(r.regras_ok);
    let fora = novo("Teste", "Salvador", u(1000), 2, u(25), u(300), None);
    assert_eq!(validar_empreendimento(&fora).mensagens, vec!["Faltando campo 'area-de-lazer'.".to_string()]);
}

#[test]
fn aprovado_equivale_a_sem_mensagens() {
    for e in gerar_empreendimentos_teste() {
        let r = validar_empreendimento(&e);
        assert_eq!(r.regras_ok, r.mensagens.is_empty());
    }
}

#[test]
fn validar_duas_vezes_da_o_mesmo_resultado() {
    for e in gerar_empreendimentos_teste() {
        let a = validar_empreendimento(&e);
        let b = validar_empreendimento(&e);
        assert_eq!(a.empreendimento, b.empreendimento);
        assert_eq!(a.regras_ok, b.regras_ok);
        assert_eq!(a.mensagens, b.mensagens);
    }
}

#[test]
fn suprimir_uma_regra_remove_so_a_sua_mensagem() {
    let e = novo("Alpha", "Salvador", u(800), 6, u(35), u(200), None);
    let todas = validar_com_ignoradas(&e, &vec![]);
    assert_eq!(
        todas.mensagens,
        vec![
            "Altura da torre deve ser inferior a 30m.".to_string(),
            "Área total das torres não pode exceder 80% do terreno.".to_string(),
            "Faltando campo 'area-de-lazer'.".to_string(),
            "Faltando área de lazer para Alpha.".to_string(),
        ]
    );
    let sem_altura = validar_com_ignoradas(&e, &vec!["RegraAlturaMax"]);
    assert_eq!(sem_altura.mensagens, todas.mensagens[1..].to_vec());
    let sem_lazer = validar_com_ignoradas(&e, &vec!["RegraAreaLazerMin"]);
    assert_eq!(
        sem_lazer.mensagens,
        vec![todas.mensagens[0].clone(), todas.mensagens[1].clone(), todas.mensagens[3].clone()]
    );
    let inexistente = validar_com_ignoradas(&e, &vec!["RegraQueNaoExiste"]);
    assert_eq!(inexistente.mensagens, todas.mensagens);
}

#[test]
fn lista_vazia_da_lista_vazia() {
    assert!(validar_empreendimentos(&[]).is_empty());
}
