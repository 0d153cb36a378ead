//! The built-in rule catalogue and the compiled form the scanner matches with.
use vstd::prelude::*;
use crate::types::{Language, Severity};
use vstd::string::StringSliceAdditionalSpecFns;

verus! {

/// A pattern rule: where it applies, what it looks for, and how to fix what
/// it finds.
#[derive(Debug, Clone, Copy)]
pub struct Rule {
    pub id: &'static str,
    pub title: &'static str,
    pub description: &'static str,
    pub severity: Severity,
    pub cwe_id: Option<&'static str>,
    pub owasp: Option<&'static str>,
    pub languages: &'static [Language],
    pub pattern: &'static str,
    pub fix_suggestion: &'static str,
    pub fix_example: Option<&'static str>,
}

/// The view of an optional string.
pub open spec fn opt_str_view(o: Option<&str>) -> Option<Seq<char>> {
    match o {
        Some(s) => Some(s@),
        None => None,
    }
}

/// `r` holds exactly the given field values.
pub open spec fn rule_has(
    r: Rule,
    id: Seq<char>,
    title: Seq<char>,
    description: Seq<char>,
    severity: Severity,
    cwe_id: Option<Seq<char>>,
    owasp: Option<Seq<char>>,
    languages: Seq<Language>,
    pattern: Seq<char>,
    fix_suggestion: Seq<char>,
    fix_example: Option<Seq<char>>,
) -> bool {
    &&& r.id@ == id
    &&& r.title@ == title
    &&& r.description@ == description
    &&& r.severity == severity
    &&& opt_str_view(r.cwe_id) == cwe_id
    &&& opt_str_view(r.owasp) == owasp
    &&& r.languages@ == languages
    &&& r.pattern@ == pattern
    &&& r.fix_suggestion@ == fix_suggestion
    &&& opt_str_view(r.fix_example) == fix_example
}

/// The number of rules in the built-in catalogue.
pub open spec fn builtin_rule_count() -> nat {
    28
}

/// `r` is entry `i` of the built-in catalogue.
pub open spec fn is_builtin_rule(r: Rule, i: int) -> bool {

    if i == 0 {
        rule_has(
            r,
            "SEC-001"@,
            "SQL 注入风险"@,
            "检测到字符串拼接构造 SQL 查询，可能导致 SQL 注入攻击"@,
            Severity::Critical,
            Some("CWE-89"@),
            Some("A03:2021-Injection"@),
            seq![Language::JavaScript, Language::TypeScript, Language::Python],
            r#"(?i)(query|execute|exec)\s*\(\s*[`"'].*\$\{|(?i)(query|execute|exec)\s*\(\s*.*\+\s*.*(?:req|input|param|user|body)"#@,
            "使用参数化查询或 ORM，不要拼接用户输入到 SQL 字符串中"@,
            Some("db.query('SELECT * FROM users WHERE id = $1', [userId])"@),
        )
    } else if i == 1 {
        rule_has(
            r,
            "SEC-002"@,
            "SQL 注入风险 (Python)"@,
            "检测到 f-string 或 format 构造 SQL 查询"@,
            Severity::Critical,
            Some("CWE-89"@),
            Some("A03:2021-Injection"@),
            seq![Language::Python],
            r#"(?i)(cursor\.execute|\.execute)\s*\(\s*f["']|(?i)(cursor\.execute|\.execute)\s*\(\s*["'].*\.format\s*\("#@,
            "使用参数化查询：cursor.execute('SELECT * FROM users WHERE id = %s', (user_id,))"@,
            Some("cursor.execute('SELECT * FROM users WHERE id = %s', (user_id,))"@),
        )
    } else if i == 2 {
        rule_has(
            r,
            "SEC-010"@,
            "跨站脚本 (XSS) 风险"@,
            "检测到 innerHTML 或 dangerouslySetInnerHTML 使用，可能导致 XSS"@,
            Severity::High,
            Some("CWE-79"@),
            Some("A03:2021-Injection"@),
            seq![Language::JavaScript, Language::TypeScript],
            r"\.innerHTML\s*=|dangerouslySetInnerHTML|document\.write\s*\("@,
            "使用 textContent 替代 innerHTML，或使用 DOMPurify 净化 HTML"@,
            Some("element.textContent = userInput; // 安全\n// 或使用 DOMPurify: element.innerHTML = DOMPurify.sanitize(userInput);"@),
        )
    } else if i == 3 {
        rule_has(
            r,
            "SEC-020"@,
            "命令注入风险"@,
            "检测到使用 exec/spawn/system 执行外部命令，可能存在命令注入"@,
            Severity::Critical,
            Some("CWE-78"@),
            Some("A03:2021-Injection"@),
            seq![Language::JavaScript, Language::TypeScript],
            r"(?:child_process|exec|execSync|spawn|spawnSync)\s*\(.*(?:req\.|input|param|user|body|query)"@,
            "使用 execFile/spawnSync 的数组参数形式，避免 shell 解释"@,
            Some("execFile('ls', ['-la', safeDir]) // 安全：数组参数不经过 shell"@),
        )
    } else if i == 4 {
        rule_has(
            r,
            "SEC-021"@,
            "命令注入风险 (Python)"@,
            "检测到 os.system/subprocess.call 使用 shell=True 或字符串拼接"@,
            Severity::Critical,
            Some("CWE-78"@),
            Some("A03:2021-Injection"@),
            seq![Language::Python],
            r#"(?:os\.system|os\.popen|subprocess\.call|subprocess\.run|subprocess\.Popen)\s*\(.*(?:shell\s*=\s*True|f["']|\+)"#@,
            "使用 subprocess.run 的列表参数形式，设置 shell=False"@,
            Some("subprocess.run(['ls', '-la', safe_dir], shell=False)"@),
        )
    } else if i == 5 {
        rule_has(
            r,
            "SEC-030"@,
            "路径遍历风险"@,
            "检测到文件操作中直接使用用户输入，可能导致路径遍历攻击"@,
            Severity::High,
            Some("CWE-22"@),
            Some("A01:2021-Broken Access Control"@),
            seq![Language::JavaScript, Language::TypeScript, Language::Python],
            r"(?:readFile|writeFile|readFileSync|createReadStream|open)\s*\(.*(?:req\.|params\.|query\.|body\.)|(?:\.\.\/|\.\.\\)"@,
            "使用 path.resolve 验证路径，确保在允许的目录范围内"@,
            Some("const safePath = path.resolve(baseDir, userInput);\nif (!safePath.startsWith(baseDir)) throw new Error('路径越界');"@),
        )
    } else if i == 6 {
        rule_has(
            r,
            "SEC-040"@,
            "硬编码密钥/密码"@,
            "检测到代码中硬编码的密钥、密码或 Token"@,
            Severity::High,
            Some("CWE-798"@),
            Some("A07:2021-Identification and Authentication Failures"@),
            seq![Language::JavaScript, Language::TypeScript, Language::Python, Language::Go, Language::Java, Language::Rust, Language::Php],
            r#"(?i)(?:password|passwd|secret|api_?key|access_?token|private_?key)\s*[:=]\s*["'][A-Za-z0-9+/=_\-]{8,}"#@,
            "使用环境变量或密钥管理服务存储敏感信息"@,
            Some("const apiKey = process.env.API_KEY; // 从环境变量读取"@),
        )
    } else if i == 7 {
        rule_has(
            r,
            "SEC-050"@,
            "弱加密算法"@,
            "检测到使用 MD5/SHA1 等不安全的加密算法"@,
            Severity::Medium,
            Some("CWE-327"@),
            Some("A02:2021-Cryptographic Failures"@),
            seq![Language::JavaScript, Language::TypeScript, Language::Python, Language::Go, Language::Java, Language::Rust, Language::Php],
            r#"(?i)(?:createHash|hashlib\.)\s*\(\s*["'](?:md5|sha1)["']\)|(?i)MD5\.Create|MessageDigest\.getInstance\s*\(\s*["'](?:MD5|SHA-1)["']\)"#@,
            "使用 SHA-256 或更强的哈希算法；密码存储使用 bcrypt/scrypt/argon2"@,
            Some("crypto.createHash('sha256').update(data).digest('hex')"@),
        )
    } else if i == 8 {
        rule_has(
            r,
            "SEC-060"@,
            "不安全的反序列化"@,
            "检测到使用 eval/pickle 等可能导致远程代码执行的反序列化操作"@,
            Severity::Critical,
            Some("CWE-502"@),
            Some("A08:2021-Software and Data Integrity Failures"@),
            seq![Language::JavaScript, Language::TypeScript, Language::Python],
            r"(?:eval|Function)\s*\(.*(?:req|input|user|body|param)|pickle\.loads?\s*\(|yaml\.(?:load|unsafe_load)\s*\("@,
            "避免 eval/pickle 处理不可信数据；使用 JSON.parse 或 yaml.safe_load"@,
            Some("import yaml\ndata = yaml.safe_load(user_input)  # 安全的 YAML 解析"@),
        )
    } else if i == 9 {
        rule_has(
            r,
            "SEC-070"@,
            "服务端请求伪造 (SSRF) 风险"@,
            "检测到用户可控的 URL 被用于服务端请求"@,
            Severity::High,
            Some("CWE-918"@),
            Some("A10:2021-Server-Side Request Forgery"@),
            seq![Language::JavaScript, Language::TypeScript, Language::Python],
            r"(?:fetch|axios|request|urllib|requests\.get|requests\.post|http\.get)\s*\(.*(?:req\.|params\.|query\.|body\.|user)"@,
            "验证并白名单过滤用户提供的 URL，禁止访问内网地址"@,
            Some("const url = new URL(userInput);\nif (!ALLOWED_HOSTS.includes(url.hostname)) throw new Error('不允许的主机');"@),
        )
    } else if i == 10 {
        rule_has(
            r,
            "SEC-080"@,
            "JWT 安全配置问题"@,
            "检测到 JWT 使用 none 算法或弱密钥"@,
            Severity::High,
            Some("CWE-347"@),
            Some("A07:2021-Identification and Authentication Failures"@),
            seq![Language::JavaScript, Language::TypeScript, Language::Python],
            r#"(?i)(?:algorithm|algorithms)\s*[:=]\s*\[?\s*["']none["']|jwt\.(?:sign|verify|encode|decode)\s*\(.*(?:["']secret["']|["']password["'])"#@,
            "使用 RS256 或 ES256 算法，密钥从环境变量读取且足够长"@,
            Some("jwt.verify(token, process.env.JWT_PUBLIC_KEY, { algorithms: ['RS256'] })"@),
        )
    } else if i == 11 {
        rule_has(
            r,
            "SEC-090"@,
            "CORS 配置不安全"@,
            "检测到 CORS 允许任意来源或反射 Origin 头"@,
            Severity::Medium,
            Some("CWE-942"@),
            Some("A05:2021-Security Misconfiguration"@),
            seq![Language::JavaScript, Language::TypeScript, Language::Python, Language::Go],
            r#"(?i)(?:Access-Control-Allow-Origin|cors)\s*[:=]\s*["']\*["']|origin\s*:\s*true"#@,
            "设置明确的 CORS 允许域名白名单，不要使用通配符 *"@,
            Some("app.use(cors({ origin: ['https://your-domain.com'] }))"@),
        )
    } else if i == 12 {
        rule_has(
            r,
            "SEC-100"@,
            "原型链污染风险"@,
            "检测到不安全的对象合并操作，可能导致原型链污染"@,
            Severity::High,
            Some("CWE-1321"@),
            Some("A03:2021-Injection"@),
            seq![Language::JavaScript, Language::TypeScript],
            r"(?:Object\.assign|_\.merge|_\.extend|_\.defaults|\.prototype\[)"@,
            "使用 Object.create(null) 创建无原型对象，或验证键名不含 __proto__"@,
            Some("const safe = Object.create(null);\nfor (const [k, v] of Object.entries(input)) {\n  if (k !== '__proto__' && k !== 'constructor') safe[k] = v;\n}"@),
        )
    } else if i == 13 {
        rule_has(
            r,
            "SEC-110"@,
            "不安全的随机数生成"@,
            "在安全场景中使用 Math.random 或 random 模块的非加密随机数"@,
            Severity::Medium,
            Some("CWE-330"@),
            Some("A02:2021-Cryptographic Failures"@),
            seq![Language::JavaScript, Language::TypeScript, Language::Python],
            r"(?i)(?:Math\.random|random\.random|random\.randint)\s*\(\s*\).*(?:token|secret|key|password|session|nonce|salt)"@,
            "使用 crypto.randomBytes/crypto.randomUUID (Node) 或 secrets 模块 (Python)"@,
            Some("const token = crypto.randomUUID(); // 安全的随机 token"@),
        )
    } else if i == 14 {
        rule_has(
            r,
            "SEC-120"@,
            "NoSQL 注入风险"@,
            "检测到 MongoDB 查询中直接使用用户输入，可能导致 NoSQL 注入"@,
            Severity::High,
            Some("CWE-943"@),
            Some("A03:2021-Injection"@),
            seq![Language::JavaScript, Language::TypeScript],
            r"\.find\s*\(\s*\{.*(?:req\.body|req\.query|req\.params)|\.aggregate\s*\(\s*\[.*\$where"@,
            "验证并净化用户输入类型，使用 mongoose 的 schema 验证"@,
            Some("const id = String(req.params.id); // 强制类型转换\ndb.collection.find({ _id: id })"@),
        )
    } else if i == 15 {
        rule_has(
            r,
            "SEC-130"@,
            "开放重定向漏洞"@,
            "用户可控的 URL 被用于 HTTP 重定向，可能导致钓鱼攻击"@,
            Severity::Medium,
            Some("CWE-601"@),
            Some("A01:2021-Broken Access Control"@),
            seq![Language::JavaScript, Language::TypeScript, Language::Python],
            r"(?:redirect|res\.redirect|redirect_to|return redirect)\s*\(.*(?:req\.|params\.|query\.|body\.|user|url)"@,
            "验证重定向目标是否在白名单域名内，禁止跳转到外部 URL"@,
            Some("const url = new URL(target, 'https://your-domain.com');\nif (url.origin !== 'https://your-domain.com') throw new Error('禁止外部重定向');"@),
        )
    } else if i == 16 {
        rule_has(
            r,
            "SEC-140"@,
            "错误信息泄露敏感数据"@,
            "堆栈跟踪或详细错误信息可能泄露给终端用户"@,
            Severity::Medium,
            Some("CWE-209"@),
            Some("A05:2021-Security Misconfiguration"@),
            seq![Language::JavaScript, Language::TypeScript, Language::Python],
            r"(?:res\.(?:send|json|status)\s*\(.*(?:err\.stack|error\.stack|traceback)|(?:\.send|\.json)\s*\(\s*(?:err|error)\s*\))"@,
            "只返回通用错误信息给用户，详细错误记录到服务端日志"@,
            Some("res.status(500).json({ error: 'Internal server error' });\nlogger.error(err.stack); // 服务端日志"@),
        )
    } else if i == 17 {
        rule_has(
            r,
            "SEC-150"@,
            "正则表达式拒绝服务 (ReDoS)"@,
            "检测到可能导致灾难性回溯的正则表达式模式"@,
            Severity::Medium,
            Some("CWE-1333"@),
            Some("A05:2021-Security Misconfiguration"@),
            seq![Language::JavaScript, Language::TypeScript, Language::Python],
            r"(?:new RegExp|re\.compile)\s*\(.*(?:\.\*\.\*|\.\+\.\+|\(\.\*\)\+|\(\.\+\)\*)"@,
            "避免嵌套量词，使用原子组或占有量词，设置超时限制"@,
            Some("// 避免: /(.+)+/\n// 改用: /[^\\s]+/ 或设置匹配超时"@),
        )
    } else if i == 18 {
        rule_has(
            r,
            "SEC-160"@,
            "缺少速率限制的敏感端点"@,
            "登录/注册/密码重置等敏感端点未检测到速率限制中间件"@,
            Severity::Medium,
            Some("CWE-307"@),
            Some("A07:2021-Identification and Authentication Failures"@),
            seq![Language::JavaScript, Language::TypeScript],
            r#"(?:app|router)\.\s*(?:post|put)\s*\(\s*["'](?:/login|/signin|/register|/signup|/reset|/forgot)["']"#@,
            "为敏感端点添加速率限制中间件（如 express-rate-limit）"@,
            Some("const limiter = rateLimit({ windowMs: 15*60*1000, max: 5 });\napp.post('/login', limiter, loginHandler);"@),
        )
    } else if i == 19 {
        rule_has(
            r,
            "SEC-170"@,
            "明文存储密码"@,
            "检测到密码可能以明文形式存储或传输"@,
            Severity::Critical,
            Some("CWE-312"@),
            Some("A02:2021-Cryptographic Failures"@),
            seq![Language::JavaScript, Language::TypeScript, Language::Python],
            r#"(?i)(?:password|passwd)\s*[:=]\s*(?:req\.body|request\.|input|params)\[?[."']"#@,
            "使用 bcrypt/scrypt/argon2 哈希存储密码，永远不要明文存储"@,
            Some("const hash = await bcrypt.hash(password, 12);\nawait db.users.update({ password: hash });"@),
        )
    } else if i == 20 {
        rule_has(
            r,
            "SEC-180"@,
            "HTTP 安全头缺失"@,
            "检测到显式禁用安全头或缺少 helmet 等安全中间件配置"@,
            Severity::Low,
            Some("CWE-693"@),
            Some("A05:2021-Security Misconfiguration"@),
            seq![Language::JavaScript, Language::TypeScript],
            r#"(?:X-Frame-Options|Content-Security-Policy|X-Content-Type-Options)\s*[:=]\s*["'](?:ALLOWALL|disabled|none)["']|helmet\s*\(\s*\{.*(?:false|disabled)"#@,
            "使用 helmet 中间件设置安全头：X-Frame-Options, CSP, HSTS 等"@,
            Some("app.use(helmet()); // 一行代码设置所有安全头"@),
        )
    } else if i == 21 {
        rule_has(
            r,
            "SEC-190"@,
            "Cookie 安全配置不当"@,
            "Cookie 未设置 HttpOnly/Secure/SameSite 标志"@,
            Severity::Medium,
            Some("CWE-614"@),
            Some("A05:2021-Security Misconfiguration"@),
            seq![Language::JavaScript, Language::TypeScript],
            r#"(?:cookie|session)\s*\(\s*\{(?:[^hs\n]|(?:h(?:t(?:t(?:p(?:O(?:n(?:l)?)?)?)?)?)?|s(?:e(?:c(?:u(?:r)?)?)?|a(?:m(?:e(?:S(?:i(?:t)?)?)?)?)?)?)*(?:h(?:[^ths\n]|t(?:[^ths\n]|t(?:[^phs\n]|p(?:[^Ohs\n]|O(?:[^nhs\n]|n(?:[^lhs\n]|l[^yhs\n]))))))|s(?:[^eahs\n]|e(?:[^chs\n]|c(?:[^uhs\n]|u(?:[^rhs\n]|r[^ehs\n])))|a(?:[^mhs\n]|m(?:[^ehs\n]|e(?:[^Shs\n]|S(?:[^ihs\n]|i(?:[^ths\n]|t[^ehs\n]))))))))*(?:h(?:t(?:t(?:p(?:O(?:n(?:l)?)?)?)?)?)?|s(?:e(?:c(?:u(?:r)?)?)?|a(?:m(?:e(?:S(?:i(?:t)?)?)?)?)?)?)*\}|(?:httpOnly|secure)\s*:\s*false"#@,
            "设置 cookie 的 httpOnly, secure, sameSite 属性"@,
            Some("res.cookie('session', token, {\n  httpOnly: true,\n  secure: true,\n  sameSite: 'strict'\n});"@),
        )
    } else if i == 22 {
        rule_has(
            r,
            "SEC-200"@,
            "XML 外部实体注入 (XXE)"@,
            "XML 解析器未禁用外部实体，可能导致文件泄露或 SSRF"@,
            Severity::High,
            Some("CWE-611"@),
            Some("A05:2021-Security Misconfiguration"@),
            seq![Language::JavaScript, Language::TypeScript, Language::Python, Language::Java],
            r"(?:parseXML|xml2js|etree\.parse|DocumentBuilder|SAXParser|XMLReader).*(?:external|resolve|dtd|entity)"@,
            "禁用 XML 解析器的外部实体和 DTD 处理"@,
            Some("// Node.js: xml2js 默认安全\n// Python: etree.parse(source, parser=etree.XMLParser(resolve_entities=False))"@),
        )
    } else if i == 23 {
        rule_has(
            r,
            "SEC-210"@,
            "日志注入风险"@,
            "用户输入直接写入日志，可能导致日志伪造或注入攻击"@,
            Severity::Low,
            Some("CWE-117"@),
            Some("A09:2021-Security Logging and Monitoring Failures"@),
            seq![Language::JavaScript, Language::TypeScript, Language::Python],
            r"(?:console\.log|logger\.info|logger\.warn|logger\.error|logging\.info)\s*\(.*(?:req\.body|req\.query|req\.params|request\.|user_input)"@,
            "对用户输入进行净化后再写入日志，过滤换行符和控制字符"@,
            Some("const safeInput = userInput.replace(/[\\r\\n]/g, '');\nlogger.info(`User action: ${safeInput}`);"@),
        )
    } else if i == 24 {
        rule_has(
            r,
            "SEC-300"@,
            "SQL 注入风险 (Go)"@,
            "Go 代码中检测到字符串拼接构造 SQL 查询"@,
            Severity::Critical,
            Some("CWE-89"@),
            Some("A03:2021-Injection"@),
            seq![Language::Go],
            r#"(?:db\.(?:Query|Exec|QueryRow)|\.(?:Query|Exec))\s*\(\s*(?:fmt\.Sprintf|.*\+)"#@,
            "使用参数化查询：db.Query(\"SELECT * FROM users WHERE id = $1\", id)"@,
            Some("rows, err := db.Query(\"SELECT * FROM users WHERE id = $1\", userID)"@),
        )
    } else if i == 25 {
        rule_has(
            r,
            "SEC-301"@,
            "命令注入风险 (Go)"@,
            "Go 代码中检测到 exec.Command 使用用户输入"@,
            Severity::Critical,
            Some("CWE-78"@),
            Some("A03:2021-Injection"@),
            seq![Language::Go],
            r"exec\.Command\s*\(.*(?:r\.FormValue|r\.URL\.Query|c\.Param|c\.Query|input|userInput)"@,
            "验证用户输入，使用白名单，避免将用户输入作为命令参数"@,
            Some("cmd := exec.Command(\"ls\", \"-la\", filepath.Clean(safeDir))"@),
        )
    } else if i == 26 {
        rule_has(
            r,
            "SEC-400"@,
            "SQL 注入风险 (Java)"@,
            "Java 代码中检测到字符串拼接构造 SQL 查询"@,
            Severity::Critical,
            Some("CWE-89"@),
            Some("A03:2021-Injection"@),
            seq![Language::Java],
            r#"(?:createQuery|createNativeQuery|executeQuery|prepareStatement)\s*\(\s*["'].*\s*\+|Statement\s+.*=.*createStatement"#@,
            "使用 PreparedStatement 参数化查询"@,
            Some("PreparedStatement ps = conn.prepareStatement(\"SELECT * FROM users WHERE id = ?\");\nps.setInt(1, userId);"@),
        )
    } else if i == 27 {
        rule_has(
            r,
            "SEC-401"@,
            "不安全的反序列化 (Java)"@,
            "Java ObjectInputStream 反序列化不可信数据可能导致 RCE"@,
            Severity::Critical,
            Some("CWE-502"@),
            Some("A08:2021-Software and Data Integrity Failures"@),
            seq![Language::Java],
            r"ObjectInputStream|readObject\s*\(\s*\)|XMLDecoder|XStream\.fromXML"@,
            "使用安全的序列化格式（JSON），或配置反序列化白名单"@,
            Some("// 使用 JSON 替代 Java 序列化\nObjectMapper mapper = new ObjectMapper();\nUser user = mapper.readValue(jsonStr, User.class);"@),
        )
    } else {
        false
    }
}

/// The built-in rule catalogue, in its fixed order.
pub fn all_rules() -> (rules: Vec<Rule>)
    ensures
        rules.len() == builtin_rule_count(),
        forall|i: int| 0 <= i < rules.len() ==> is_builtin_rule(#[trigger] rules@[i], i),
{
    let rules = vec![
        Rule {
            id: "SEC-001",
            title: "SQL 注入风险",
            description: "检测到字符串拼接构造 SQL 查询，可能导致 SQL 注入攻击",
            severity: Severity::Critical,
            cwe_id: Some("CWE-89"),
            owasp: Some("A03:2021-Injection"),
            languages: &[Language::JavaScript, Language::TypeScript, Language::Python],
            pattern: r#"(?i)(query|execute|exec)\s*\(\s*[`"'].*\$\{|(?i)(query|execute|exec)\s*\(\s*.*\+\s*.*(?:req|input|param|user|body)"#,
            fix_suggestion: "使用参数化查询或 ORM，不要拼接用户输入到 SQL 字符串中",
            fix_example: Some("db.query('SELECT * FROM users WHERE id = $1', [userId])"),
        },
        Rule {
            id: "SEC-002",
            title: "SQL 注入风险 (Python)",
            description: "检测到 f-string 或 format 构造 SQL 查询",
            severity: Severity::Critical,
            cwe_id: Some("CWE-89"),
            owasp: Some("A03:2021-Injection"),
            languages: &[Language::Python],
            pattern: r#"(?i)(cursor\.execute|\.execute)\s*\(\s*f["']|(?i)(cursor\.execute|\.execute)\s*\(\s*["'].*\.format\s*\("#,
            fix_suggestion: "使用参数化查询：cursor.execute('SELECT * FROM users WHERE id = %s', (user_id,))",
            fix_example: Some("cursor.execute('SELECT * FROM users WHERE id = %s', (user_id,))"),
        },
        Rule {
            id: "SEC-010",
            title: "跨站脚本 (XSS) 风险",
            description: "检测到 innerHTML 或 dangerouslySetInnerHTML 使用，可能导致 XSS",
            severity: Severity::High,
            cwe_id: Some("CWE-79"),
            owasp: Some("A03:2021-Injection"),
            languages: &[Language::JavaScript, Language::TypeScript],
            pattern: r"\.innerHTML\s*=|dangerouslySetInnerHTML|document\.write\s*\(",
            fix_suggestion: "使用 textContent 替代 innerHTML，或使用 DOMPurify 净化 HTML",
            fix_example: Some("element.textContent = userInput; // 安全\n// 或使用 DOMPurify: element.innerHTML = DOMPurify.sanitize(userInput);"),
        },
        Rule {
            id: "SEC-020",
            title: "命令注入风险",
            description: "检测到使用 exec/spawn/system 执行外部命令，可能存在命令注入",
            severity: Severity::Critical,
            cwe_id: Some("CWE-78"),
            owasp: Some("A03:2021-Injection"),
            languages: &[Language::JavaScript, Language::TypeScript],
            pattern: r"(?:child_process|exec|execSync|spawn|spawnSync)\s*\(.*(?:req\.|input|param|user|body|query)",
            fix_suggestion: "使用 execFile/spawnSync 的数组参数形式，避免 shell 解释",
            fix_example: Some("execFile('ls', ['-la', safeDir]) // 安全：数组参数不经过 shell"),
        },
        Rule {
            id: "SEC-021",
            title: "命令注入风险 (Python)",
            description: "检测到 os.system/subprocess.call 使用 shell=True 或字符串拼接",
            severity: Severity::Critical,
            cwe_id: Some("CWE-78"),
            owasp: Some("A03:2021-Injection"),
            languages: &[Language::Python],
            pattern: r#"(?:os\.system|os\.popen|subprocess\.call|subprocess\.run|subprocess\.Popen)\s*\(.*(?:shell\s*=\s*True|f["']|\+)"#,
            fix_suggestion: "使用 subprocess.run 的列表参数形式，设置 shell=False",
            fix_example: Some("subprocess.run(['ls', '-la', safe_dir], shell=False)"),
        },
        Rule {
            id: "SEC-030",
            title: "路径遍历风险",
            description: "检测到文件操作中直接使用用户输入，可能导致路径遍历攻击",
            severity: Severity::High,
            cwe_id: Some("CWE-22"),
            owasp: Some("A01:2021-Broken Access Control"),
            languages: &[Language::JavaScript, Language::TypeScript, Language::Python],
            pattern: r"(?:readFile|writeFile|readFileSync|createReadStream|open)\s*\(.*(?:req\.|params\.|query\.|body\.)|(?:\.\.\/|\.\.\\)",
            fix_suggestion: "使用 path.resolve 验证路径，确保在允许的目录范围内",
            fix_example: Some("const safePath = path.resolve(baseDir, userInput);\nif (!safePath.startsWith(baseDir)) throw new Error('路径越界');"),
        },
        Rule {
            id: "SEC-040",
            title: "硬编码密钥/密码",
            description: "检测到代码中硬编码的密钥、密码或 Token",
            severity: Severity::High,
            cwe_id: Some("CWE-798"),
            owasp: Some("A07:2021-Identification and Authentication Failures"),
            languages: &[Language::JavaScript, Language::TypeScript, Language::Python, Language::Go, Language::Java, Language::Rust, Language::Php],
            pattern: r#"(?i)(?:password|passwd|secret|api_?key|access_?token|private_?key)\s*[:=]\s*["'][A-Za-z0-9+/=_\-]{8,}"#,
            fix_suggestion: "使用环境变量或密钥管理服务存储敏感信息",
            fix_example: Some("const apiKey = process.env.API_KEY; // 从环境变量读取"),
        },
        Rule {
            id: "SEC-050",
            title: "弱加密算法",
            description: "检测到使用 MD5/SHA1 等不安全的加密算法",
            severity: Severity::Medium,
            cwe_id: Some("CWE-327"),
            owasp: Some("A02:2021-Cryptographic Failures"),
            languages: &[Language::JavaScript, Language::TypeScript, Language::Python, Language::Go, Language::Java, Language::Rust, Language::Php],
            pattern: r#"(?i)(?:createHash|hashlib\.)\s*\(\s*["'](?:md5|sha1)["']\)|(?i)MD5\.Create|MessageDigest\.getInstance\s*\(\s*["'](?:MD5|SHA-1)["']\)"#,
            fix_suggestion: "使用 SHA-256 或更强的哈希算法；密码存储使用 bcrypt/scrypt/argon2",
            fix_example: Some("crypto.createHash('sha256').update(data).digest('hex')"),
        },
        Rule {
            id: "SEC-060",
            title: "不安全的反序列化",
            description: "检测到使用 eval/pickle 等可能导致远程代码执行的反序列化操作",
            severity: Severity::Critical,
            cwe_id: Some("CWE-502"),
            owasp: Some("A08:2021-Software and Data Integrity Failures"),
            languages: &[Language::JavaScript, Language::TypeScript, Language::Python],
            pattern: r"(?:eval|Function)\s*\(.*(?:req|input|user|body|param)|pickle\.loads?\s*\(|yaml\.(?:load|unsafe_load)\s*\(",
            fix_suggestion: "避免 eval/pickle 处理不可信数据；使用 JSON.parse 或 yaml.safe_load",
            fix_example: Some("import yaml\ndata = yaml.safe_load(user_input)  # 安全的 YAML 解析"),
        },
        Rule {
            id: "SEC-070",
            title: "服务端请求伪造 (SSRF) 风险",
            description: "检测到用户可控的 URL 被用于服务端请求",
            severity: Severity::High,
            cwe_id: Some("CWE-918"),
            owasp: Some("A10:2021-Server-Side Request Forgery"),
            languages: &[Language::JavaScript, Language::TypeScript, Language::Python],
            pattern: r"(?:fetch|axios|request|urllib|requests\.get|requests\.post|http\.get)\s*\(.*(?:req\.|params\.|query\.|body\.|user)",
            fix_suggestion: "验证并白名单过滤用户提供的 URL，禁止访问内网地址",
            fix_example: Some("const url = new URL(userInput);\nif (!ALLOWED_HOSTS.includes(url.hostname)) throw new Error('不允许的主机');"),
        },
        Rule {
            id: "SEC-080",
            title: "JWT 安全配置问题",
            description: "检测到 JWT 使用 none 算法或弱密钥",
            severity: Severity::High,
            cwe_id: Some("CWE-347"),
            owasp: Some("A07:2021-Identification and Authentication Failures"),
            languages: &[Language::JavaScript, Language::TypeScript, Language::Python],
            pattern: r#"(?i)(?:algorithm|algorithms)\s*[:=]\s*\[?\s*["']none["']|jwt\.(?:sign|verify|encode|decode)\s*\(.*(?:["']secret["']|["']password["'])"#,
            fix_suggestion: "使用 RS256 或 ES256 算法，密钥从环境变量读取且足够长",
            fix_example: Some("jwt.verify(token, process.env.JWT_PUBLIC_KEY, { algorithms: ['RS256'] })"),
        },
        Rule {
            id: "SEC-090",
            title: "CORS 配置不安全",
            description: "检测到 CORS 允许任意来源或反射 Origin 头",
            severity: Severity::Medium,
            cwe_id: Some("CWE-942"),
            owasp: Some("A05:2021-Security Misconfiguration"),
            languages: &[Language::JavaScript, Language::TypeScript, Language::Python, Language::Go],
            pattern: r#"(?i)(?:Access-Control-Allow-Origin|cors)\s*[:=]\s*["']\*["']|origin\s*:\s*true"#,
            fix_suggestion: "设置明确的 CORS 允许域名白名单，不要使用通配符 *",
            fix_example: Some("app.use(cors({ origin: ['https://your-domain.com'] }))"),
        },
        Rule {
            id: "SEC-100",
            title: "原型链污染风险",
            description: "检测到不安全的对象合并操作，可能导致原型链污染",
            severity: Severity::High,
            cwe_id: Some("CWE-1321"),
            owasp: Some("A03:2021-Injection"),
            languages: &[Language::JavaScript, Language::TypeScript],
            pattern: r"(?:Object\.assign|_\.merge|_\.extend|_\.defaults|\.prototype\[)",
            fix_suggestion: "使用 Object.create(null) 创建无原型对象，或验证键名不含 __proto__",
            fix_example: Some("const safe = Object.create(null);\nfor (const [k, v] of Object.entries(input)) {\n  if (k !== '__proto__' && k !== 'constructor') safe[k] = v;\n}"),
        },
        Rule {
            id: "SEC-110",
            title: "不安全的随机数生成",
            description: "在安全场景中使用 Math.random 或 random 模块的非加密随机数",
            severity: Severity::Medium,
            cwe_id: Some("CWE-330"),
            owasp: Some("A02:2021-Cryptographic Failures"),
            languages: &[Language::JavaScript, Language::TypeScript, Language::Python],
            pattern: r"(?i)(?:Math\.random|random\.random|random\.randint)\s*\(\s*\).*(?:token|secret|key|password|session|nonce|salt)",
            fix_suggestion: "使用 crypto.randomBytes/crypto.randomUUID (Node) 或 secrets 模块 (Python)",
            fix_example: Some("const token = crypto.randomUUID(); // 安全的随机 token"),
        },
        Rule {
            id: "SEC-120",
            title: "NoSQL 注入风险",
            description: "检测到 MongoDB 查询中直接使用用户输入，可能导致 NoSQL 注入",
            severity: Severity::High,
            cwe_id: Some("CWE-943"),
            owasp: Some("A03:2021-Injection"),
            languages: &[Language::JavaScript, Language::TypeScript],
            pattern: r"\.find\s*\(\s*\{.*(?:req\.body|req\.query|req\.params)|\.aggregate\s*\(\s*\[.*\$where",
            fix_suggestion: "验证并净化用户输入类型，使用 mongoose 的 schema 验证",
            fix_example: Some("const id = String(req.params.id); // 强制类型转换\ndb.collection.find({ _id: id })"),
        },
        Rule {
            id: "SEC-130",
            title: "开放重定向漏洞",
            description: "用户可控的 URL 被用于 HTTP 重定向，可能导致钓鱼攻击",
            severity: Severity::Medium,
            cwe_id: Some("CWE-601"),
            owasp: Some("A01:2021-Broken Access Control"),
            languages: &[Language::JavaScript, Language::TypeScript, Language::Python],
            pattern: r"(?:redirect|res\.redirect|redirect_to|return redirect)\s*\(.*(?:req\.|params\.|query\.|body\.|user|url)",
            fix_suggestion: "验证重定向目标是否在白名单域名内，禁止跳转到外部 URL",
            fix_example: Some("const url = new URL(target, 'https://your-domain.com');\nif (url.origin !== 'https://your-domain.com') throw new Error('禁止外部重定向');"),
        },
        Rule {
            id: "SEC-140",
            title: "错误信息泄露敏感数据",
            description: "堆栈跟踪或详细错误信息可能泄露给终端用户",
            severity: Severity::Medium,
            cwe_id: Some("CWE-209"),
            owasp: Some("A05:2021-Security Misconfiguration"),
            languages: &[Language::JavaScript, Language::TypeScript, Language::Python],
            pattern: r"(?:res\.(?:send|json|status)\s*\(.*(?:err\.stack|error\.stack|traceback)|(?:\.send|\.json)\s*\(\s*(?:err|error)\s*\))",
            fix_suggestion: "只返回通用错误信息给用户，详细错误记录到服务端日志",
            fix_example: Some("res.status(500).json({ error: 'Internal server error' });\nlogger.error(err.stack); // 服务端日志"),
        },
        Rule {
            id: "SEC-150",
            title: "正则表达式拒绝服务 (ReDoS)",
            description: "检测到可能导致灾难性回溯的正则表达式模式",
            severity: Severity::Medium,
            cwe_id: Some("CWE-1333"),
            owasp: Some("A05:2021-Security Misconfiguration"),
            languages: &[Language::JavaScript, Language::TypeScript, Language::Python],
            pattern: r"(?:new RegExp|re\.compile)\s*\(.*(?:\.\*\.\*|\.\+\.\+|\(\.\*\)\+|\(\.\+\)\*)",
            fix_suggestion: "避免嵌套量词，使用原子组或占有量词，设置超时限制",
            fix_example: Some("// 避免: /(.+)+/\n// 改用: /[^\\s]+/ 或设置匹配超时"),
        },
        Rule {
            id: "SEC-160",
            title: "缺少速率限制的敏感端点",
            description: "登录/注册/密码重置等敏感端点未检测到速率限制中间件",
            severity: Severity::Medium,
            cwe_id: Some("CWE-307"),
            owasp: Some("A07:2021-Identification and Authentication Failures"),
            languages: &[Language::JavaScript, Language::TypeScript],
            pattern: r#"(?:app|router)\.\s*(?:post|put)\s*\(\s*["'](?:/login|/signin|/register|/signup|/reset|/forgot)["']"#,
            fix_suggestion: "为敏感端点添加速率限制中间件（如 express-rate-limit）",
            fix_example: Some("const limiter = rateLimit({ windowMs: 15*60*1000, max: 5 });\napp.post('/login', limiter, loginHandler);"),
        },
        Rule {
            id: "SEC-170",
            title: "明文存储密码",
            description: "检测到密码可能以明文形式存储或传输",
            severity: Severity::Critical,
            cwe_id: Some("CWE-312"),
            owasp: Some("A02:2021-Cryptographic Failures"),
            languages: &[Language::JavaScript, Language::TypeScript, Language::Python],
            pattern: r#"(?i)(?:password|passwd)\s*[:=]\s*(?:req\.body|request\.|input|params)\[?[."']"#,
            fix_suggestion: "使用 bcrypt/scrypt/argon2 哈希存储密码，永远不要明文存储",
            fix_example: Some("const hash = await bcrypt.hash(password, 12);\nawait db.users.update({ password: hash });"),
        },
        Rule {
            id: "SEC-180",
            title: "HTTP 安全头缺失",
            description: "检测到显式禁用安全头或缺少 helmet 等安全中间件配置",
            severity: Severity::Low,
            cwe_id: Some("CWE-693"),
            owasp: Some("A05:2021-Security Misconfiguration"),
            languages: &[Language::JavaScript, Language::TypeScript],
            pattern: r#"(?:X-Frame-Options|Content-Security-Policy|X-Content-Type-Options)\s*[:=]\s*["'](?:ALLOWALL|disabled|none)["']|helmet\s*\(\s*\{.*(?:false|disabled)"#,
            fix_suggestion: "使用 helmet 中间件设置安全头：X-Frame-Options, CSP, HSTS 等",
            fix_example: Some("app.use(helmet()); // 一行代码设置所有安全头"),
        },
        // An options object that names none of httpOnly, secure and sameSite:
        // the body is spelled out as text avoiding those three words, since the
        // regex engine has no look-ahead.
        Rule {
            id: "SEC-190",
            title: "Cookie 安全配置不当",
            description: "Cookie 未设置 HttpOnly/Secure/SameSite 标志",
            severity: Severity::Medium,
            cwe_id: Some("CWE-614"),
            owasp: Some("A05:2021-Security Misconfiguration"),
            languages: &[Language::JavaScript, Language::TypeScript],
            pattern: r#"(?:cookie|session)\s*\(\s*\{(?:[^hs\n]|(?:h(?:t(?:t(?:p(?:O(?:n(?:l)?)?)?)?)?)?|s(?:e(?:c(?:u(?:r)?)?)?|a(?:m(?:e(?:S(?:i(?:t)?)?)?)?)?)?)*(?:h(?:[^ths\n]|t(?:[^ths\n]|t(?:[^phs\n]|p(?:[^Ohs\n]|O(?:[^nhs\n]|n(?:[^lhs\n]|l[^yhs\n]))))))|s(?:[^eahs\n]|e(?:[^chs\n]|c(?:[^uhs\n]|u(?:[^rhs\n]|r[^ehs\n])))|a(?:[^mhs\n]|m(?:[^ehs\n]|e(?:[^Shs\n]|S(?:[^ihs\n]|i(?:[^ths\n]|t[^ehs\n]))))))))*(?:h(?:t(?:t(?:p(?:O(?:n(?:l)?)?)?)?)?)?|s(?:e(?:c(?:u(?:r)?)?)?|a(?:m(?:e(?:S(?:i(?:t)?)?)?)?)?)?)*\}|(?:httpOnly|secure)\s*:\s*false"#,
            fix_suggestion: "设置 cookie 的 httpOnly, secure, sameSite 属性",
            fix_example: Some("res.cookie('session', token, {\n  httpOnly: true,\n  secure: true,\n  sameSite: 'strict'\n});"),
        },
        Rule {
            id: "SEC-200",
            title: "XML 外部实体注入 (XXE)",
            description: "XML 解析器未禁用外部实体，可能导致文件泄露或 SSRF",
            severity: Severity::High,
            cwe_id: Some("CWE-611"),
            owasp: Some("A05:2021-Security Misconfiguration"),
            languages: &[Language::JavaScript, Language::TypeScript, Language::Python, Language::Java],
            pattern: r"(?:parseXML|xml2js|etree\.parse|DocumentBuilder|SAXParser|XMLReader).*(?:external|resolve|dtd|entity)",
            fix_suggestion: "禁用 XML 解析器的外部实体和 DTD 处理",
            fix_example: Some("// Node.js: xml2js 默认安全\n// Python: etree.parse(source, parser=etree.XMLParser(resolve_entities=False))"),
        },
        Rule {
            id: "SEC-210",
            title: "日志注入风险",
            description: "用户输入直接写入日志，可能导致日志伪造或注入攻击",
            severity: Severity::Low,
            cwe_id: Some("CWE-117"),
            owasp: Some("A09:2021-Security Logging and Monitoring Failures"),
            languages: &[Language::JavaScript, Language::TypeScript, Language::Python],
            pattern: r"(?:console\.log|logger\.info|logger\.warn|logger\.error|logging\.info)\s*\(.*(?:req\.body|req\.query|req\.params|request\.|user_input)",
            fix_suggestion: "对用户输入进行净化后再写入日志，过滤换行符和控制字符",
            fix_example: Some("const safeInput = userInput.replace(/[\\r\\n]/g, '');\nlogger.info(`User action: ${safeInput}`);"),
        },
        Rule {
            id: "SEC-300",
            title: "SQL 注入风险 (Go)",
            description: "Go 代码中检测到字符串拼接构造 SQL 查询",
            severity: Severity::Critical,
            cwe_id: Some("CWE-89"),
            owasp: Some("A03:2021-Injection"),
            languages: &[Language::Go],
            pattern: r#"(?:db\.(?:Query|Exec|QueryRow)|\.(?:Query|Exec))\s*\(\s*(?:fmt\.Sprintf|.*\+)"#,
            fix_suggestion: "使用参数化查询：db.Query(\"SELECT * FROM users WHERE id = $1\", id)",
            fix_example: Some("rows, err := db.Query(\"SELECT * FROM users WHERE id = $1\", userID)"),
        },
        Rule {
            id: "SEC-301",
            title: "命令注入风险 (Go)",
            description: "Go 代码中检测到 exec.Command 使用用户输入",
            severity: Severity::Critical,
            cwe_id: Some("CWE-78"),
            owasp: Some("A03:2021-Injection"),
            languages: &[Language::Go],
            pattern: r"exec\.Command\s*\(.*(?:r\.FormValue|r\.URL\.Query|c\.Param|c\.Query|input|userInput)",
            fix_suggestion: "验证用户输入，使用白名单，避免将用户输入作为命令参数",
            fix_example: Some("cmd := exec.Command(\"ls\", \"-la\", filepath.Clean(safeDir))"),
        },
        Rule {
            id: "SEC-400",
            title: "SQL 注入风险 (Java)",
            description: "Java 代码中检测到字符串拼接构造 SQL 查询",
            severity: Severity::Critical,
            cwe_id: Some("CWE-89"),
            owasp: Some("A03:2021-Injection"),
            languages: &[Language::Java],
            pattern: r#"(?:createQuery|createNativeQuery|executeQuery|prepareStatement)\s*\(\s*["'].*\s*\+|Statement\s+.*=.*createStatement"#,
            fix_suggestion: "使用 PreparedStatement 参数化查询",
            fix_example: Some("PreparedStatement ps = conn.prepareStatement(\"SELECT * FROM users WHERE id = ?\");\nps.setInt(1, userId);"),
        },
        Rule {
            id: "SEC-401",
            title: "不安全的反序列化 (Java)",
            description: "Java ObjectInputStream 反序列化不可信数据可能导致 RCE",
            severity: Severity::Critical,
            cwe_id: Some("CWE-502"),
            owasp: Some("A08:2021-Software and Data Integrity Failures"),
            languages: &[Language::Java],
            pattern: r"ObjectInputStream|readObject\s*\(\s*\)|XMLDecoder|XStream\.fromXML",
            fix_suggestion: "使用安全的序列化格式（JSON），或配置反序列化白名单",
            fix_example: Some("// 使用 JSON 替代 Java 序列化\nObjectMapper mapper = new ObjectMapper();\nUser user = mapper.readValue(jsonStr, User.class);"),
        },
    ];
    assert(rules@[0].languages@ =~= seq![Language::JavaScript, Language::TypeScript, Language::Python]);
    assert(is_builtin_rule(rules@[0], 0));
    assert(rules@[1].languages@ =~= seq![Language::Python]);
    assert(is_builtin_rule(rules@[1], 1));
    assert(rules@[2].languages@ =~= seq![Language::JavaScript, Language::TypeScript]);
    assert(is_builtin_rule(rules@[2], 2));
    assert(rules@[3].languages@ =~= seq![Language::JavaScript, Language::TypeScript]);
    assert(is_builtin_rule(rules@[3], 3));
    assert(rules@[4].languages@ =~= seq![Language::Python]);
    assert(is_builtin_rule(rules@[4], 4));
    assert(rules@[5].languages@ =~= seq![Language::JavaScript, Language::TypeScript, Language::Python]);
    assert(is_builtin_rule(rules@[5], 5));
    assert(rules@[6].languages@ =~= seq![Language::JavaScript, Language::TypeScript, Language::Python, Language::Go, Language::Java, Language::Rust, Language::Php]);
    assert(is_builtin_rule(rules@[6], 6));
    assert(rules@[7].languages@ =~= seq![Language::JavaScript, Language::TypeScript, Language::Python, Language::Go, Language::Java, Language::Rust, Language::Php]);
    assert(is_builtin_rule(rules@[7], 7));
    assert(rules@[8].languages@ =~= seq![Language::JavaScript, Language::TypeScript, Language::Python]);
    assert(is_builtin_rule(rules@[8], 8));
    assert(rules@[9].languages@ =~= seq![Language::JavaScript, Language::TypeScript, Language::Python]);
    assert(is_builtin_rule(rules@[9], 9));
    assert(rules@[10].languages@ =~= seq![Language::JavaScript, Language::TypeScript, Language::Python]);
    assert(is_builtin_rule(rules@[10], 10));
    assert(rules@[11].languages@ =~= seq![Language::JavaScript, Language::TypeScript, Language::Python, Language::Go]);
    assert(is_builtin_rule(rules@[11], 11));
    assert(rules@[12].languages@ =~= seq![Language::JavaScript, Language::TypeScript]);
    assert(is_builtin_rule(rules@[12], 12));
    assert(rules@[13].languages@ =~= seq![Language::JavaScript, Language::TypeScript, Language::Python]);
    assert(is_builtin_rule(rules@[13], 13));
    assert(rules@[14].languages@ =~= seq![Language::JavaScript, Language::TypeScript]);
    assert(is_builtin_rule(rules@[14], 14));
    assert(rules@[15].languages@ =~= seq![Language::JavaScript, Language::TypeScript, Language::Python]);
    assert(is_builtin_rule(rules@[15], 15));
    assert(rules@[16].languages@ =~= seq![Language::JavaScript, Language::TypeScript, Language::Python]);
    assert(is_builtin_rule(rules@[16], 16));
    assert(rules@[17].languages@ =~= seq![Language::JavaScript, Language::TypeScript, Language::Python]);
    assert(is_builtin_rule(rules@[17], 17));
    assert(rules@[18].languages@ =~= seq![Language::JavaScript, Language::TypeScript]);
    assert(is_builtin_rule(rules@[18], 18));
    assert(rules@[19].languages@ =~= seq![Language::JavaScript, Language::TypeScript, Language::Python]);
    assert(is_builtin_rule(rules@[19], 19));
    assert(rules@[20].languages@ =~= seq![Language::JavaScript, Language::TypeScript]);
    assert(is_builtin_rule(rules@[20], 20));
    assert(rules@[21].languages@ =~= seq![Language::JavaScript, Language::TypeScript]);
    assert(is_builtin_rule(rules@[21], 21));
    assert(rules@[22].languages@ =~= seq![Language::JavaScript, Language::TypeScript, Language::Python, Language::Java]);
    assert(is_builtin_rule(rules@[22], 22));
    assert(rules@[23].languages@ =~= seq![Language::JavaScript, Language::TypeScript, Language::Python]);
    assert(is_builtin_rule(rules@[23], 23));
    assert(rules@[24].languages@ =~= seq![Language::Go]);
    assert(is_builtin_rule(rules@[24], 24));
    assert(rules@[25].languages@ =~= seq![Language::Go]);
    assert(is_builtin_rule(rules@[25], 25));
    assert(rules@[26].languages@ =~= seq![Language::Java]);
    assert(is_builtin_rule(rules@[26], 26));
    assert(rules@[27].languages@ =~= seq![Language::Java]);
    assert(is_builtin_rule(rules@[27], 27));
    rules
}

/// `regex::Regex` is carried opaquely.
#[verifier::external_type_specification]
#[verifier::external_body]
pub struct ExRegex(regex::Regex);

/// Whether `regex::Regex::new` accepts `pattern` (its syntax is supported
/// and the compiled program stays within the default size limit).
pub uninterp spec fn regex_compiles(pattern: Seq<char>) -> bool;

/// The byte offset at which the leftmost-first match of `pattern` in
/// `haystack` starts, as `regex::Regex::find` reports it; `None` when the
/// pattern does not match.
pub uninterp spec fn regex_find_start(pattern: Seq<char>, haystack: Seq<char>) -> Option<usize>;

/// A rule together with the matcher built from its pattern.
pub struct CompiledRule {
    rule: Rule,
    regex: regex::Regex,
}

impl CompiledRule {
    /// The rule this matcher was compiled from.
    pub closed spec fn spec_rule(&self) -> Rule {
        self.rule
    }

    /// The rule this matcher was compiled from.
    pub fn rule(&self) -> (r: &Rule)
        ensures
            *r == self.spec_rule(),
    {
        &self.rule
    }
}

impl View for CompiledRule {
    type V = Seq<char>;

    /// The pattern the matcher was compiled from.
    open spec fn view(&self) -> Seq<char> {
        self.spec_rule().pattern@
    }
}

/// Calls `regex::Regex::find` on `haystack` with the matcher compiled from
/// `compiled@` and returns where the match starts (`Match::start`). The
/// start is a byte offset at which the haystack may be sliced, so it is at
/// most the haystack's length in bytes, and a `str` never holds more than
/// `isize::MAX` bytes.
#[verifier::external_body]
fn find_start(compiled: &CompiledRule, haystack: &str) -> (r: Option<usize>)
    ensures
        r == regex_find_start(compiled@, haystack@),
        r matches Some(s) ==> s <= haystack.spec_bytes().len() <= isize::MAX,
{
    match compiled.regex.find(haystack) {
        Some(m) => Some(m.start()),
        None => None,
    }
}

impl CompiledRule {
    /// Where the rule's pattern first matches in `haystack` (a byte
    /// offset), if anywhere.
    pub fn find_in(&self, haystack: &str) -> (r: Option<usize>)
        ensures
            r == regex_find_start(self@, haystack@),
            r matches Some(s) ==> s <= haystack.spec_bytes().len() <= isize::MAX,
    {
        find_start(self, haystack)
    }
}

/// Compiles a rule's pattern with `regex::Regex::new` and pairs the rule
/// with the resulting matcher; `None` when the regex engine refuses the
/// pattern. Trusted: the result is `Some` exactly when the pattern compiles
/// (`regex_compiles`), and the matcher it holds is the one built from this
/// rule's own pattern, so its view is `rule.pattern@`. This is the only
/// place a `CompiledRule` is made, which is what ties `find_start` to the
/// view.
#[verifier::external_body]
pub fn compile_rule(rule: &Rule) -> (r: Option<CompiledRule>)
    ensures
        r is Some <==> regex_compiles(rule.pattern@),
        r matches Some(c) ==> c.spec_rule() == *rule,
{
    match regex::Regex::new(rule.pattern) {
        Ok(regex) => Some(CompiledRule { rule: *rule, regex }),
        Err(_) => None,
    }
}

/// The rules of `rules` whose patterns compile, in order.
pub open spec fn compilable_rules(rules: Seq<Rule>) -> Seq<Rule>
    decreases rules.len(),
{
    if rules.len() == 0 {
        seq![]
    } else {
        let init = compilable_rules(rules.drop_last());
        if regex_compiles(rules.last().pattern@) {
            init.push(rules.last())
        } else {
            init
        }
    }
}

/// The rules each compiled matcher comes from.
pub open spec fn compiled_rules_of(cs: Seq<CompiledRule>) -> Seq<Rule> {
    cs.map_values(|c: CompiledRule| c.spec_rule())
}

/// Compiles every rule, keeping (in order) those whose pattern compiles.
pub fn compile_rules(rules: &Vec<Rule>) -> (r: Vec<CompiledRule>)
    ensures
        compiled_rules_of(r@) == compilable_rules(rules@),
{
    let mut out: Vec<CompiledRule> = Vec::new();
    let mut i: usize = 0;
    while i < rules.len()
        invariant
            i <= rules.len(),
            compiled_rules_of(out@) == compilable_rules(rules@.take(i as int)),
        decreases rules.len() - i,
    {
        let ghost before = out@;
        assert(rules@.take(i + 1).drop_last() =~= rules@.take(i as int));
        match compile_rule(&rules[i]) {
            Some(c) => {
                out.push(c);
                assert(compiled_rules_of(out@) =~= compiled_rules_of(before).push(rules@[i as int]));
            },
            None => {},
        }
        i = i + 1;
    }
    assert(rules@.take(rules.len() as int) =~= rules@);
    out
}

/// The id of catalogue entry `i`.
pub open spec fn builtin_rule_id(i: int) -> Seq<char> {
    if i == 0 { "SEC-001"@ } else
    if i == 1 { "SEC-002"@ } else
    if i == 2 { "SEC-010"@ } else
    if i == 3 { "SEC-020"@ } else
    if i == 4 { "SEC-021"@ } else
    if i == 5 { "SEC-030"@ } else
    if i == 6 { "SEC-040"@ } else
    if i == 7 { "SEC-050"@ } else
    if i == 8 { "SEC-060"@ } else
    if i == 9 { "SEC-070"@ } else
    if i == 10 { "SEC-080"@ } else
    if i == 11 { "SEC-090"@ } else
    if i == 12 { "SEC-100"@ } else
    if i == 13 { "SEC-110"@ } else
    if i == 14 { "SEC-120"@ } else
    if i == 15 { "SEC-130"@ } else
    if i == 16 { "SEC-140"@ } else
    if i == 17 { "SEC-150"@ } else
    if i == 18 { "SEC-160"@ } else
    if i == 19 { "SEC-170"@ } else
    if i == 20 { "SEC-180"@ } else
    if i == 21 { "SEC-190"@ } else
    if i == 22 { "SEC-200"@ } else
    if i == 23 { "SEC-210"@ } else
    if i == 24 { "SEC-300"@ } else
    if i == 25 { "SEC-301"@ } else
    if i == 26 { "SEC-400"@ } else
    if i == 27 { "SEC-401"@ } else { seq![] }
}

proof fn lemma_builtin_rule_id(r: Rule, i: int)
    requires
        is_builtin_rule(r, i),
    ensures
        r.id@ == builtin_rule_id(i),
{
}

/// The catalogue is the README's rule table: 28 rules, in the table's order,
/// each with the table's id, severity, CWE and languages ("All" being the
/// seven known languages).
pub proof fn lemma_catalogue_is_the_rule_table(rules: Seq<Rule>)
    requires
        rules.len() == builtin_rule_count(),
        forall|i: int| 0 <= i < rules.len() ==> is_builtin_rule(#[trigger] rules[i], i),
    ensures
        rules.len() == 28,
        rules[0].id@ == "SEC-001"@ && rules[0].severity == Severity::Critical && opt_str_view(rules[0].cwe_id) == Some("CWE-89"@)
            && rules[0].languages@ == seq![Language::JavaScript, Language::TypeScript, Language::Python],
        rules[1].id@ == "SEC-002"@ && rules[1].severity == Severity::Critical && opt_str_view(rules[1].cwe_id) == Some("CWE-89"@)
            && rules[1].languages@ == seq![Language::Python],
        rules[2].id@ == "SEC-010"@ && rules[2].severity == Severity::High && opt_str_view(rules[2].cwe_id) == Some("CWE-79"@)
            && rules[2].languages@ == seq![Language::JavaScript, Language::TypeScript],
        rules[3].id@ == "SEC-020"@ && rules[3].severity == Severity::Critical && opt_str_view(rules[3].cwe_id) == Some("CWE-78"@)
            && rules[3].languages@ == seq![Language::JavaScript, Language::TypeScript],
        rules[4].id@ == "SEC-021"@ && rules[4].severity == Severity::Critical && opt_str_view(rules[4].cwe_id) == Some("CWE-78"@)
            && rules[4].languages@ == seq![Language::Python],
        rules[5].id@ == "SEC-030"@ && rules[5].severity == Severity::High && opt_str_view(rules[5].cwe_id) == Some("CWE-22"@)
            && rules[5].languages@ == seq![Language::JavaScript, Language::TypeScript, Language::Python],
        rules[6].id@ == "SEC-040"@ && rules[6].severity == Severity::High && opt_str_view(rules[6].cwe_id) == Some("CWE-798"@)
            && rules[6].languages@ == seq![Language::JavaScript, Language::TypeScript, Language::Python, Language::Go, Language::Java, Language::Rust, Language::Php],
        rules[7].id@ == "SEC-050"@ && rules[7].severity == Severity::Medium && opt_str_view(rules[7].cwe_id) == Some("CWE-327"@)
            && rules[7].languages@ == seq![Language::JavaScript, Language::TypeScript, Language::Python, Language::Go, Language::Java, Language::Rust, Language::Php],
        rules[8].id@ == "SEC-060"@ && rules[8].severity == Severity::Critical && opt_str_view(rules[8].cwe_id) == Some("CWE-502"@)
            && rules[8].languages@ == seq![Language::JavaScript, Language::TypeScript, Language::Python],
        rules[9].id@ == "SEC-070"@ && rules[9].severity == Severity::High && opt_str_view(rules[9].cwe_id) == Some("CWE-918"@)
            && rules[9].languages@ == seq![Language::JavaScript, Language::TypeScript, Language::Python],
        rules[10].id@ == "SEC-080"@ && rules[10].severity == Severity::High && opt_str_view(rules[10].cwe_id) == Some("CWE-347"@)
            && rules[10].languages@ == seq![Language::JavaScript, Language::TypeScript, Language::Python],
        rules[11].id@ == "SEC-090"@ && rules[11].severity == Severity::Medium && opt_str_view(rules[11].cwe_id) == Some("CWE-942"@)
            && rules[11].languages@ == seq![Language::JavaScript, Language::TypeScript, Language::Python, Language::Go],
        rules[12].id@ == "SEC-100"@ && rules[12].severity == Severity::High && opt_str_view(rules[12].cwe_id) == Some("CWE-1321"@)
            && rules[12].languages@ == seq![Language::JavaScript, Language::TypeScript],
        rules[13].id@ == "SEC-110"@ && rules[13].severity == Severity::Medium && opt_str_view(rules[13].cwe_id) == Some("CWE-330"@)
            && rules[13].languages@ == seq![Language::JavaScript, Language::TypeScript, Language::Python],
        rules[14].id@ == "SEC-120"@ && rules[14].severity == Severity::High && opt_str_view(rules[14].cwe_id) == Some("CWE-943"@)
            && rules[14].languages@ == seq![Language::JavaScript, Language::TypeScript],
        rules[15].id@ == "SEC-130"@ && rules[15].severity == Severity::Medium && opt_str_view(rules[15].cwe_id) == Some("CWE-601"@)
            && rules[15].languages@ == seq![Language::JavaScript, Language::TypeScript, Language::Python],
        rules[16].id@ == "SEC-140"@ && rules[16].severity == Severity::Medium && opt_str_view(rules[16].cwe_id) == Some("CWE-209"@)
            && rules[16].languages@ == seq![Language::JavaScript, Language::TypeScript, Language::Python],
        rules[17].id@ == "SEC-150"@ && rules[17].severity == Severity::Medium && opt_str_view(rules[17].cwe_id) == Some("CWE-1333"@)
            && rules[17].languages@ == seq![Language::JavaScript, Language::TypeScript, Language::Python],
        rules[18].id@ == "SEC-160"@ && rules[18].severity == Severity::Medium && opt_str_view(rules[18].cwe_id) == Some("CWE-307"@)
            && rules[18].languages@ == seq![Language::JavaScript, Language::TypeScript],
        rules[19].id@ == "SEC-170"@ && rules[19].severity == Severity::Critical && opt_str_view(rules[19].cwe_id) == Some("CWE-312"@)
            && rules[19].languages@ == seq![Language::JavaScript, Language::TypeScript, Language::Python],
        rules[20].id@ == "SEC-180"@ && rules[20].severity == Severity::Low && opt_str_view(rules[20].cwe_id) == Some("CWE-693"@)
            && rules[20].languages@ == seq![Language::JavaScript, Language::TypeScript],
        rules[21].id@ == "SEC-190"@ && rules[21].severity == Severity::Medium && opt_str_view(rules[21].cwe_id) == Some("CWE-614"@)
            && rules[21].languages@ == seq![Language::JavaScript, Language::TypeScript],
        rules[22].id@ == "SEC-200"@ && rules[22].severity == Severity::High && opt_str_view(rules[22].cwe_id) == Some("CWE-611"@)
            && rules[22].languages@ == seq![Language::JavaScript, Language::TypeScript, Language::Python, Language::Java],
        rules[23].id@ == "SEC-210"@ && rules[23].severity == Severity::Low && opt_str_view(rules[23].cwe_id) == Some("CWE-117"@)
            && rules[23].languages@ == seq![Language::JavaScript, Language::TypeScript, Language::Python],
        rules[24].id@ == "SEC-300"@ && rules[24].severity == Severity::Critical && opt_str_view(rules[24].cwe_id) == Some("CWE-89"@)
            && rules[24].languages@ == seq![Language::Go],
        rules[25].id@ == "SEC-301"@ && rules[25].severity == Severity::Critical && opt_str_view(rules[25].cwe_id) == Some("CWE-78"@)
            && rules[25].languages@ == seq![Language::Go],
        rules[26].id@ == "SEC-400"@ && rules[26].severity == Severity::Critical && opt_str_view(rules[26].cwe_id) == Some("CWE-89"@)
            && rules[26].languages@ == seq![Language::Java],
        rules[27].id@ == "SEC-401"@ && rules[27].severity == Severity::Critical && opt_str_view(rules[27].cwe_id) == Some("CWE-502"@)
            && rules[27].languages@ == seq![Language::Java],
{
    assert(is_builtin_rule(rules[0], 0));
    assert(is_builtin_rule(rules[1], 1));
    assert(is_builtin_rule(rules[2], 2));
    assert(is_builtin_rule(rules[3], 3));
    assert(is_builtin_rule(rules[4], 4));
    assert(is_builtin_rule(rules[5], 5));
    assert(is_builtin_rule(rules[6], 6));
    assert(is_builtin_rule(rules[7], 7));
    assert(is_builtin_rule(rules[8], 8));
    assert(is_builtin_rule(rules[9], 9));
    assert(is_builtin_rule(rules[10], 10));
    assert(is_builtin_rule(rules[11], 11));
    assert(is_builtin_rule(rules[12], 12));
    assert(is_builtin_rule(rules[13], 13));
    assert(is_builtin_rule(rules[14], 14));
    assert(is_builtin_rule(rules[15], 15));
    assert(is_builtin_rule(rules[16], 16));
    assert(is_builtin_rule(rules[17], 17));
    assert(is_builtin_rule(rules[18], 18));
    assert(is_builtin_rule(rules[19], 19));
    assert(is_builtin_rule(rules[20], 20));
    assert(is_builtin_rule(rules[21], 21));
    assert(is_builtin_rule(rules[22], 22));
    assert(is_builtin_rule(rules[23], 23));
    assert(is_builtin_rule(rules[24], 24));
    assert(is_builtin_rule(rules[25], 25));
    assert(is_builtin_rule(rules[26], 26));
    assert(is_builtin_rule(rules[27], 27));
}

/// The catalogue's rule ids are all different: no two entries share one.
pub proof fn lemma_builtin_rule_ids_distinct(rules: Seq<Rule>)
    requires
        rules.len() == builtin_rule_count(),
        forall|i: int| 0 <= i < rules.len() ==> is_builtin_rule(#[trigger] rules[i], i),
    ensures
        forall|i: int, j: int| 0 <= i < j < rules.len() ==> #[trigger] rules[i].id@ != #[trigger] rules[j].id@,
{
    reveal_strlit("SEC-001");
    reveal_strlit("SEC-002");
    reveal_strlit("SEC-010");
    reveal_strlit("SEC-020");
    reveal_strlit("SEC-021");
    reveal_strlit("SEC-030");
    reveal_strlit("SEC-040");
    reveal_strlit("SEC-050");
    reveal_strlit("SEC-060");
    reveal_strlit("SEC-070");
    reveal_strlit("SEC-080");
    reveal_strlit("SEC-090");
    reveal_strlit("SEC-100");
    reveal_strlit("SEC-110");
    reveal_strlit("SEC-120");
    reveal_strlit("SEC-130");
    reveal_strlit("SEC-140");
    reveal_strlit("SEC-150");
    reveal_strlit("SEC-160");
    reveal_strlit("SEC-170");
    reveal_strlit("SEC-180");
    reveal_strlit("SEC-190");
    reveal_strlit("SEC-200");
    reveal_strlit("SEC-210");
    reveal_strlit("SEC-300");
    reveal_strlit("SEC-301");
    reveal_strlit("SEC-400");
    reveal_strlit("SEC-401");
    assert forall|i: int, j: int| 0 <= i < j < rules.len() implies #[trigger] rules[i].id@ != #[trigger] rules[j].id@ by {
        lemma_builtin_rule_id(rules[i], i);
        lemma_builtin_rule_id(rules[j], j);
        assert(builtin_rule_id(i)[4] != builtin_rule_id(j)[4] || builtin_rule_id(i)[5] != builtin_rule_id(j)[5]
            || builtin_rule_id(i)[6] != builtin_rule_id(j)[6]);
    }
}

} // verus!
